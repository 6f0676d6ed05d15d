//! Reading the transfer-bearing fields of encoded transaction messages. The
//! protobuf decoding itself is done by `cosmos-sdk-proto` (through prost); each
//! decoder below names what it reads, so that the logic built on it can be
//! stated exactly.

use vstd::prelude::*;
use cosmos_sdk_proto::cosmos::bank::v1beta1::{MsgMultiSend, MsgSend};
use cosmos_sdk_proto::cosmos::distribution::v1beta1::MsgFundCommunityPool;
use cosmos_sdk_proto::cosmos::gov::v1::{
    MsgDeposit as MsgDepositV1, MsgSubmitProposal as MsgSubmitProposalV1,
};
use cosmos_sdk_proto::cosmos::gov::v1beta1::{MsgDeposit, MsgSubmitProposal};
use cosmos_sdk_proto::cosmos::staking::v1beta1::MsgDelegate;
use cosmos_sdk_proto::cosmos::vesting::v1beta1::{
    MsgCreatePeriodicVestingAccount, MsgCreatePermanentLockedAccount, MsgCreateVestingAccount,
};
use cosmos_sdk_proto::cosmwasm::wasm::v1::{
    MsgExecuteContract, MsgInstantiateContract, MsgInstantiateContract2,
};
use cosmos_sdk_proto::ibc::applications::transfer::v1::MsgTransfer;
use cosmos_sdk_proto::traits::Message;

verus! {

/// A coin as an encoded message carries it: the amount is decimal text.
#[derive(Clone, Debug)]
pub struct RawCoin {
    pub denom: String,
    pub amount: String,
}

pub type RawCoinView = (Seq<char>, Seq<char>);

impl View for RawCoin {
    type V = RawCoinView;

    open spec fn view(&self) -> RawCoinView {
        (self.denom@, self.amount@)
    }
}

pub open spec fn coins_view(v: Seq<RawCoin>) -> Seq<RawCoinView> {
    v.map_values(|c: RawCoin| c@)
}

pub open spec fn opt_coins_view(r: Option<Vec<RawCoin>>) -> Option<Seq<RawCoinView>> {
    match r {
        Some(v) => Some(coins_view(v@)),
        None => None,
    }
}

pub open spec fn opt_groups_view(r: Option<Vec<Vec<RawCoin>>>) -> Option<Seq<Seq<RawCoinView>>> {
    match r {
        Some(v) => Some(v@.map_values(|g: Vec<RawCoin>| coins_view(g@))),
        None => None,
    }
}

pub open spec fn opt_coin_view(r: Option<Option<RawCoin>>) -> Option<Option<RawCoinView>> {
    match r {
        Some(Some(c)) => Some(Some(c@)),
        Some(None) => Some(None),
        None => None,
    }
}

/// A decoded contract-execute message: the contract called, the body sent to
/// it, and the funds sent along.
#[derive(Clone, Debug)]
pub struct WasmExecute {
    pub contract: String,
    pub msg: Vec<u8>,
    pub funds: Vec<RawCoin>,
}

pub open spec fn opt_execute_view(r: Option<WasmExecute>) -> Option<
    (Seq<char>, Seq<u8>, Seq<RawCoinView>),
> {
    match r {
        Some(w) => Some((w.contract@, w.msg@, coins_view(w.funds@))),
        None => None,
    }
}

pub uninterp spec fn wasm_execute_of(b: Seq<u8>) -> Option<(Seq<char>, Seq<u8>, Seq<RawCoinView>)>;

/// Relies on prost's `Message::decode` for wasmd's `MsgExecuteContract`:
/// `None` when the bytes are not a valid encoding, else its `contract`, `msg`
/// and `funds`; the result depends on the bytes alone.
#[verifier::external_body]
pub(crate) fn decode_wasm_execute(b: &[u8]) -> (r: Option<WasmExecute>)
    ensures
        opt_execute_view(r) == wasm_execute_of(b@),
{
    MsgExecuteContract::decode(b).ok().map(
        |m| WasmExecute {
            contract: m.contract,
            msg: m.msg,
            funds: m.funds.into_iter().map(|c| RawCoin { denom: c.denom, amount: c.amount }).collect(),
        },
    )
}

pub uninterp spec fn bank_send_amount(b: Seq<u8>) -> Option<Seq<RawCoinView>>;

/// Relies on prost's `Message::decode` for cosmos-sdk's bank `MsgSend`: `None` when the bytes
/// are not a valid encoding, else its `amount`; the result depends on the bytes alone.
#[verifier::external_body]
pub(crate) fn decode_bank_send(b: &[u8]) -> (r: Option<Vec<RawCoin>>)
    ensures
        opt_coins_view(r) == bank_send_amount(b@),
{
    MsgSend::decode(b).ok().map(|m| m.amount.into_iter().map(|c| RawCoin { denom: c.denom, amount: c.amount }).collect())
}

pub uninterp spec fn multi_send_input_coins(b: Seq<u8>) -> Option<Seq<Seq<RawCoinView>>>;

/// Relies on prost's `Message::decode` for cosmos-sdk's bank `MsgMultiSend`: `None` when the bytes
/// are not a valid encoding, else the `coins` of each of its `inputs`; the result depends on the bytes alone.
#[verifier::external_body]
pub(crate) fn decode_multi_send(b: &[u8]) -> (r: Option<Vec<Vec<RawCoin>>>)
    ensures
        opt_groups_view(r) == multi_send_input_coins(b@),
{
    MsgMultiSend::decode(b).ok().map(
        |m| m.inputs.into_iter().map(|i| i.coins).map(|g| g.into_iter().map(|c| RawCoin { denom: c.denom, amount: c.amount }).collect()).collect(),
    )
}

pub uninterp spec fn wasm_instantiate_funds(b: Seq<u8>) -> Option<Seq<RawCoinView>>;

/// Relies on prost's `Message::decode` for wasmd's `MsgInstantiateContract`: `None` when the bytes
/// are not a valid encoding, else its `funds`; the result depends on the bytes alone.
#[verifier::external_body]
pub(crate) fn decode_wasm_instantiate(b: &[u8]) -> (r: Option<Vec<RawCoin>>)
    ensures
        opt_coins_view(r) == wasm_instantiate_funds(b@),
{
    MsgInstantiateContract::decode(b).ok().map(|m| m.funds.into_iter().map(|c| RawCoin { denom: c.denom, amount: c.amount }).collect())
}

pub uninterp spec fn wasm_instantiate2_funds(b: Seq<u8>) -> Option<Seq<RawCoinView>>;

/// Relies on prost's `Message::decode` for wasmd's `MsgInstantiateContract2`: `None` when the bytes
/// are not a valid encoding, else its `funds`; the result depends on the bytes alone.
#[verifier::external_body]
pub(crate) fn decode_wasm_instantiate2(b: &[u8]) -> (r: Option<Vec<RawCoin>>)
    ensures
        opt_coins_view(r) == wasm_instantiate2_funds(b@),
{
    MsgInstantiateContract2::decode(b).ok().map(|m| m.funds.into_iter().map(|c| RawCoin { denom: c.denom, amount: c.amount }).collect())
}

pub uninterp spec fn gov_submit_proposal_deposit(b: Seq<u8>) -> Option<Seq<RawCoinView>>;

/// Relies on prost's `Message::decode` for cosmos-sdk's gov v1beta1 `MsgSubmitProposal`: `None` when the bytes
/// are not a valid encoding, else its `initial_deposit`; the result depends on the bytes alone.
#[verifier::external_body]
pub(crate) fn decode_gov_submit_proposal(b: &[u8]) -> (r: Option<Vec<RawCoin>>)
    ensures
        opt_coins_view(r) == gov_submit_proposal_deposit(b@),
{
    MsgSubmitProposal::decode(b).ok().map(|m| m.initial_deposit.into_iter().map(|c| RawCoin { denom: c.denom, amount: c.amount }).collect())
}

pub uninterp spec fn gov_deposit_amount(b: Seq<u8>) -> Option<Seq<RawCoinView>>;

/// Relies on prost's `Message::decode` for cosmos-sdk's gov v1beta1 `MsgDeposit`: `None` when the bytes
/// are not a valid encoding, else its `amount`; the result depends on the bytes alone.
#[verifier::external_body]
pub(crate) fn decode_gov_deposit(b: &[u8]) -> (r: Option<Vec<RawCoin>>)
    ensures
        opt_coins_view(r) == gov_deposit_amount(b@),
{
    MsgDeposit::decode(b).ok().map(|m| m.amount.into_iter().map(|c| RawCoin { denom: c.denom, amount: c.amount }).collect())
}

pub uninterp spec fn gov_v1_submit_proposal_deposit(b: Seq<u8>) -> Option<Seq<RawCoinView>>;

/// Relies on prost's `Message::decode` for cosmos-sdk's gov v1 `MsgSubmitProposal`: `None` when the bytes
/// are not a valid encoding, else its `initial_deposit`; the result depends on the bytes alone.
#[verifier::external_body]
pub(crate) fn decode_gov_v1_submit_proposal(b: &[u8]) -> (r: Option<Vec<RawCoin>>)
    ensures
        opt_coins_view(r) == gov_v1_submit_proposal_deposit(b@),
{
    MsgSubmitProposalV1::decode(b).ok().map(|m| m.initial_deposit.into_iter().map(|c| RawCoin { denom: c.denom, amount: c.amount }).collect())
}

pub uninterp spec fn gov_v1_deposit_amount(b: Seq<u8>) -> Option<Seq<RawCoinView>>;

/// Relies on prost's `Message::decode` for cosmos-sdk's gov v1 `MsgDeposit`: `None` when the bytes
/// are not a valid encoding, else its `amount`; the result depends on the bytes alone.
#[verifier::external_body]
pub(crate) fn decode_gov_v1_deposit(b: &[u8]) -> (r: Option<Vec<RawCoin>>)
    ensures
        opt_coins_view(r) == gov_v1_deposit_amount(b@),
{
    MsgDepositV1::decode(b).ok().map(|m| m.amount.into_iter().map(|c| RawCoin { denom: c.denom, amount: c.amount }).collect())
}

pub uninterp spec fn community_pool_fund_amount(b: Seq<u8>) -> Option<Seq<RawCoinView>>;

/// Relies on prost's `Message::decode` for cosmos-sdk's distribution `MsgFundCommunityPool`: `None` when the bytes
/// are not a valid encoding, else its `amount`; the result depends on the bytes alone.
#[verifier::external_body]
pub(crate) fn decode_fund_community_pool(b: &[u8]) -> (r: Option<Vec<RawCoin>>)
    ensures
        opt_coins_view(r) == community_pool_fund_amount(b@),
{
    MsgFundCommunityPool::decode(b).ok().map(|m| m.amount.into_iter().map(|c| RawCoin { denom: c.denom, amount: c.amount }).collect())
}

pub uninterp spec fn delegate_amount(b: Seq<u8>) -> Option<Option<RawCoinView>>;

/// Relies on prost's `Message::decode` for cosmos-sdk's staking `MsgDelegate`: `None` when the bytes
/// are not a valid encoding, else its optional `amount`; the result depends on the bytes alone.
#[verifier::external_body]
pub(crate) fn decode_delegate(b: &[u8]) -> (r: Option<Option<RawCoin>>)
    ensures
        opt_coin_view(r) == delegate_amount(b@),
{
    MsgDelegate::decode(b).ok().map(
        |m| m.amount.map(|c| RawCoin { denom: c.denom, amount: c.amount }),
    )
}

pub uninterp spec fn vesting_account_amount(b: Seq<u8>) -> Option<Seq<RawCoinView>>;

/// Relies on prost's `Message::decode` for cosmos-sdk's vesting `MsgCreateVestingAccount`: `None` when the bytes
/// are not a valid encoding, else its `amount`; the result depends on the bytes alone.
#[verifier::external_body]
pub(crate) fn decode_create_vesting_account(b: &[u8]) -> (r: Option<Vec<RawCoin>>)
    ensures
        opt_coins_view(r) == vesting_account_amount(b@),
{
    MsgCreateVestingAccount::decode(b).ok().map(|m| m.amount.into_iter().map(|c| RawCoin { denom: c.denom, amount: c.amount }).collect())
}

pub uninterp spec fn permanent_locked_amount(b: Seq<u8>) -> Option<Seq<RawCoinView>>;

/// Relies on prost's `Message::decode` for cosmos-sdk's vesting `MsgCreatePermanentLockedAccount`: `None` when the bytes
/// are not a valid encoding, else its `amount`; the result depends on the bytes alone.
#[verifier::external_body]
pub(crate) fn decode_create_permanent_locked_account(b: &[u8]) -> (r: Option<Vec<RawCoin>>)
    ensures
        opt_coins_view(r) == permanent_locked_amount(b@),
{
    MsgCreatePermanentLockedAccount::decode(b).ok().map(|m| m.amount.into_iter().map(|c| RawCoin { denom: c.denom, amount: c.amount }).collect())
}

pub uninterp spec fn periodic_vesting_amounts(b: Seq<u8>) -> Option<Seq<Seq<RawCoinView>>>;

/// Relies on prost's `Message::decode` for cosmos-sdk's vesting `MsgCreatePeriodicVestingAccount`: `None` when the bytes
/// are not a valid encoding, else the `amount` of each of its `vesting_periods`; the result depends on the bytes alone.
#[verifier::external_body]
pub(crate) fn decode_create_periodic_vesting_account(b: &[u8]) -> (r: Option<Vec<Vec<RawCoin>>>)
    ensures
        opt_groups_view(r) == periodic_vesting_amounts(b@),
{
    MsgCreatePeriodicVestingAccount::decode(b).ok().map(
        |m| m.vesting_periods.into_iter().map(|p| p.amount).map(|g| g.into_iter().map(|c| RawCoin { denom: c.denom, amount: c.amount }).collect()).collect(),
    )
}

pub uninterp spec fn ibc_transfer_token(b: Seq<u8>) -> Option<Option<RawCoinView>>;

/// Relies on prost's `Message::decode` for ibc-go's `MsgTransfer`: `None` when the bytes
/// are not a valid encoding, else its optional `token`; the result depends on the bytes alone.
#[verifier::external_body]
pub(crate) fn decode_ibc_transfer(b: &[u8]) -> (r: Option<Option<RawCoin>>)
    ensures
        opt_coin_view(r) == ibc_transfer_token(b@),
{
    MsgTransfer::decode(b).ok().map(
        |m| m.token.map(|c| RawCoin { denom: c.denom, amount: c.amount }),
    )
}

} // verus!
