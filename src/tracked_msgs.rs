//! Which coins a transaction moves: each message of a known transfer-bearing
//! kind is decoded and its amounts are added up per denomination; messages of
//! other kinds move nothing.

use vstd::prelude::*;
use crate::error::ContractError;
use crate::msg::{coins_model, Coin, CoinModel, SdkMsg};
use crate::proto::{
    coins_view, community_pool_fund_amount, decode_bank_send, decode_create_periodic_vesting_account,
    decode_create_permanent_locked_account, decode_create_vesting_account, decode_delegate,
    decode_fund_community_pool, decode_gov_deposit, decode_gov_submit_proposal,
    decode_gov_v1_deposit, decode_gov_v1_submit_proposal, decode_ibc_transfer, decode_multi_send,
    decode_wasm_execute, decode_wasm_instantiate, decode_wasm_instantiate2, delegate_amount,
    gov_deposit_amount, gov_submit_proposal_deposit, gov_v1_deposit_amount,
    gov_v1_submit_proposal_deposit, ibc_transfer_token, multi_send_input_coins,
    periodic_vesting_amounts, permanent_locked_amount, vesting_account_amount, wasm_execute_of,
    wasm_instantiate2_funds, wasm_instantiate_funds, bank_send_amount, opt_coins_view,
    opt_execute_view, RawCoin, RawCoinView, WasmExecute,
};

verus! {

// bank
pub const BANK_SEND: &'static str = "/cosmos.bank.v1beta1.MsgSend";
pub const BANK_MULTI_SEND: &'static str = "/cosmos.bank.v1beta1.MsgMultiSend";
// wasm
pub const WASM_EXECUTE: &'static str = "/cosmwasm.wasm.v1.MsgExecuteContract";
pub const WASM_INSTANTIATE: &'static str = "/cosmwasm.wasm.v1.MsgInstantiateContract";
pub const WASM_INSTANTIATE2: &'static str = "/cosmwasm.wasm.v1.MsgInstantiateContract2";
// gov
pub const GOV_SUBMIT_PROPOSAL: &'static str = "/cosmos.gov.v1beta1.MsgSubmitProposal";
pub const GOV_DEPOSIT_PROPOSAL: &'static str = "/cosmos.gov.v1beta1.MsgDeposit";
pub const GOV_SUBMIT_PROPOSAL_V1: &'static str = "/cosmos.gov.v1.MsgSubmitProposal";
pub const GOV_DEPOSIT_PROPOSAL_V1: &'static str = "/cosmos.gov.v1.MsgDeposit";
// distribution
pub const DIST_FUND_COMMUNITY_POOL: &'static str = "/cosmos.distribution.v1beta1.MsgFundCommunityPool";
// staking
pub const STAKE_DELEGATE: &'static str = "/cosmos.staking.v1beta1.MsgDelegate";
// vesting
pub const VESTING_CREATE_VESTING_ACCOUNT: &'static str = "/cosmos.vesting.v1beta1.MsgCreateVestingAccount";
pub const VESTING_CREATE_PERMANENT_LOCKED_ACCOUNT: &'static str =
    "/cosmos.vesting.v1beta1.MsgCreatePermanentLockedAccount";
pub const VESTING_CREATE_PERIODIC_VESTING_ACCOUNT: &'static str =
    "/cosmos.vesting.v1beta1.MsgCreatePeriodicVestingAccount";
// ibc
pub const IBC_TRANSFER: &'static str = "/ibc.applications.transfer.v1.MsgTransfer";

/// The coin lists of `gs`, one after another.
pub open spec fn flatten(gs: Seq<Seq<RawCoinView>>) -> Seq<RawCoinView>
    decreases gs.len(),
{
    if gs.len() == 0 {
        Seq::empty()
    } else {
        flatten(gs.drop_last()) + gs.last()
    }
}

pub open spec fn list_of(c: Option<RawCoinView>) -> Seq<RawCoinView> {
    match c {
        Some(x) => seq![x],
        None => Seq::empty(),
    }
}

/// The coins a message of type `url` with body `value` moves; `None` when it is
/// of a known kind and its body cannot be decoded.
pub open spec fn carried(url: Seq<char>, value: Seq<u8>) -> Option<Seq<RawCoinView>> {
    if url == BANK_SEND@ {
        bank_send_amount(value)
    } else if url == BANK_MULTI_SEND@ {
        match multi_send_input_coins(value) {
            Some(gs) => Some(flatten(gs)),
            None => None,
        }
    } else if url == WASM_EXECUTE@ {
        match wasm_execute_of(value) {
            Some(w) => Some(w.2),
            None => None,
        }
    } else if url == WASM_INSTANTIATE@ {
        wasm_instantiate_funds(value)
    } else if url == WASM_INSTANTIATE2@ {
        wasm_instantiate2_funds(value)
    } else if url == GOV_SUBMIT_PROPOSAL@ {
        gov_submit_proposal_deposit(value)
    } else if url == GOV_DEPOSIT_PROPOSAL@ {
        gov_deposit_amount(value)
    } else if url == GOV_SUBMIT_PROPOSAL_V1@ {
        gov_v1_submit_proposal_deposit(value)
    } else if url == GOV_DEPOSIT_PROPOSAL_V1@ {
        gov_v1_deposit_amount(value)
    } else if url == DIST_FUND_COMMUNITY_POOL@ {
        community_pool_fund_amount(value)
    } else if url == STAKE_DELEGATE@ {
        match delegate_amount(value) {
            Some(c) => Some(list_of(c)),
            None => None,
        }
    } else if url == VESTING_CREATE_VESTING_ACCOUNT@ {
        vesting_account_amount(value)
    } else if url == VESTING_CREATE_PERMANENT_LOCKED_ACCOUNT@ {
        permanent_locked_amount(value)
    } else if url == VESTING_CREATE_PERIODIC_VESTING_ACCOUNT@ {
        match periodic_vesting_amounts(value) {
            Some(gs) => Some(flatten(gs)),
            None => None,
        }
    } else if url == IBC_TRANSFER@ {
        match ibc_transfer_token(value) {
            Some(c) => Some(list_of(c)),
            None => None,
        }
    } else {
        Some(Seq::empty())
    }
}

pub open spec fn is_digit(c: char) -> bool {
    '0' <= c <= '9'
}

/// The number written by the decimal digits `s`.
pub open spec fn digits_value(s: Seq<char>) -> int
    decreases s.len(),
{
    if s.len() == 0 {
        0
    } else {
        digits_value(s.drop_last()) * 10 + (s.last() as int - '0' as int)
    }
}

/// `s` without a leading `+`.
pub open spec fn unsigned_part(s: Seq<char>) -> Seq<char> {
    if s.len() > 0 && s[0] == '+' {
        s.drop_first()
    } else {
        s
    }
}

pub open spec fn all_digits(t: Seq<char>) -> bool {
    forall|i: int| 0 <= i < t.len() ==> is_digit(#[trigger] t[i])
}

/// The amount written by `s`: decimal digits, optionally after a `+`, whose
/// value fits in 128 bits.
pub open spec fn decimal_amount(s: Seq<char>) -> Option<u128> {
    let t = unsigned_part(s);
    if t.len() > 0 && all_digits(t) && digits_value(t) <= u128::MAX {
        Some(digits_value(t) as u128)
    } else {
        None
    }
}

/// The position of the first entry of `bal` for denomination `d`.
pub open spec fn denom_pos(bal: Seq<CoinModel>, d: Seq<char>) -> Option<int>
    decreases bal.len(),
{
    if bal.len() == 0 {
        None
    } else if bal[0].0 == d {
        Some(0)
    } else {
        match denom_pos(bal.drop_first(), d) {
            Some(k) => Some(k + 1),
            None => None,
        }
    }
}

/// `bal` with the coin `c` added to its denomination's entry (or appended).
pub open spec fn add_coin(bal: Seq<CoinModel>, c: RawCoinView) -> Result<Seq<CoinModel>, ContractError> {
    match decimal_amount(c.1) {
        None => Err(ContractError::MalformedMessage),
        Some(v) => match denom_pos(bal, c.0) {
            Some(k) => if bal[k].1 + v > u128::MAX {
                Err(ContractError::AmountOverflow)
            } else {
                Ok(bal.update(k, (bal[k].0, (bal[k].1 + v) as u128)))
            },
            None => Ok(bal.push((c.0, v))),
        },
    }
}

/// `bal` with the coins `cs` added one by one.
pub open spec fn add_coins(bal: Seq<CoinModel>, cs: Seq<RawCoinView>) -> Result<
    Seq<CoinModel>,
    ContractError,
>
    decreases cs.len(),
{
    if cs.len() == 0 {
        Ok(bal)
    } else {
        match add_coins(bal, cs.drop_last()) {
            Err(e) => Err(e),
            Ok(b) => add_coin(b, cs.last()),
        }
    }
}

/// The per-denomination totals that the messages `msgs` move, in order of
/// first appearance.
pub open spec fn transfer_balances(msgs: Seq<SdkMsg>) -> Result<Seq<CoinModel>, ContractError>
    decreases msgs.len(),
{
    if msgs.len() == 0 {
        Ok(Seq::empty())
    } else {
        match transfer_balances(msgs.drop_last()) {
            Err(e) => Err(e),
            Ok(b) => match carried(msgs.last().type_url@, msgs.last().value@) {
                None => Err(ContractError::MalformedMessage),
                Some(cs) => add_coins(b, cs),
            },
        }
    }
}

/// Whether `s` reads `lit`.
pub(crate) fn text_is(s: &String, lit: &str) -> (r: bool)
    ensures
        r == (s@ == lit@),
{
    let a = s.as_str();
    let n = a.unicode_len();
    if n != lit.unicode_len() {
        return false;
    }
    let mut i: usize = 0;
    while i < n
        invariant
            a@ == s@,
            n == s@.len(),
            n == lit@.len(),
            i <= n,
            forall|j: int| 0 <= j < i ==> s@[j] == lit@[j],
        decreases n - i,
    {
        if a.get_char(i) != lit.get_char(i) {
            return false;
        }
        i = i + 1;
    }
    assert(s@ =~= lit@);
    true
}

/// The amount that `s` writes.
pub fn parse_amount(s: &String) -> (r: Option<u128>)
    ensures
        r == decimal_amount(s@),
{
    let a = s.as_str();
    let n = a.unicode_len();
    let start: usize = if n > 0 && a.get_char(0) == '+' {
        1
    } else {
        0
    };
    let ghost t = unsigned_part(s@);
    assert(t =~= s@.skip(start as int));
    if start >= n {
        return None;
    }
    let mut v: u128 = 0;
    let mut i: usize = start;
    assert(t.take(0) =~= Seq::<char>::empty());
    while i < n
        invariant
            a@ == s@,
            n == s@.len(),
            start <= i <= n,
            t == unsigned_part(s@),
            t == s@.skip(start as int),
            forall|j: int| 0 <= j < i - start ==> is_digit(#[trigger] t[j]),
            v == digits_value(t.take(i - start)),
        decreases n - i,
    {
        let c = a.get_char(i);
        assert(t[i - start] == c);
        if !('0' <= c && c <= '9') {
            assert(!is_digit(t[i - start]));
            assert(!all_digits(t));
            return None;
        }
        let d = (c as u32 - '0' as u32) as u128;
        assert(d == c as int - '0' as int);
        assert(t.take(i - start + 1).drop_last() =~= t.take(i - start));
        assert(t.take(i - start + 1).last() == c);
        assert(digits_value(t.take(i - start + 1)) == v * 10 + d);
        match v.checked_mul(10) {
            None => {
                proof {
                    lemma_digits_prefix(t, i - start + 1);
                }
                return None;
            },
            Some(v10) => match v10.checked_add(d) {
                None => {
                    proof {
                        lemma_digits_prefix(t, i - start + 1);
                    }
                    return None;
                },
                Some(w) => {
                    v = w;
                },
            },
        }
        i = i + 1;
    }
    assert(t.take(n - start) =~= t);
    Some(v)
}

/// A longer run of digits writes at least as much as any of its prefixes.
proof fn lemma_digits_prefix(t: Seq<char>, k: int)
    requires
        0 <= k <= t.len(),
    ensures
        all_digits(t) ==> digits_value(t) >= digits_value(t.take(k)),
    decreases t.len() - k,
{
    if k < t.len() {
        lemma_digits_prefix(t, k + 1);
        if all_digits(t) {
            assert(t.take(k + 1).drop_last() =~= t.take(k));
            assert(is_digit(t[k]));
            assert(digits_value(t.take(k)) >= 0) by {
                lemma_digits_nonneg(t.take(k), t);
            }
        }
    } else {
        assert(t.take(k) =~= t);
    }
}

proof fn lemma_digits_nonneg(s: Seq<char>, t: Seq<char>)
    requires
        s.len() <= t.len(),
        forall|i: int| 0 <= i < s.len() ==> s[i] == t[i],
        forall|i: int| 0 <= i < t.len() ==> is_digit(#[trigger] t[i]),
    ensures
        digits_value(s) >= 0,
    decreases s.len(),
{
    if s.len() > 0 {
        lemma_digits_nonneg(s.drop_last(), t);
        assert(is_digit(t[s.len() - 1]));
    }
}

pub open spec fn shifted(o: Option<int>, by: int) -> Option<int> {
    match o {
        Some(k) => Some(k + by),
        None => None,
    }
}

/// The position of the first entry of `balances` for denomination `d`.
fn find_denom(balances: &Vec<Coin>, d: &String) -> (r: Option<usize>)
    ensures
        shifted(denom_pos(coins_model(balances@), d@), 0) == match r {
            Some(k) => Some(k as int),
            None => None::<int>,
        },
        r matches Some(k) ==> k < balances@.len(),
{
    let ghost m = coins_model(balances@);
    let mut i: usize = 0;
    assert(m.skip(0) =~= m);
    while i < balances.len()
        invariant
            m == coins_model(balances@),
            m.len() == balances@.len(),
            i <= balances@.len(),
            shifted(denom_pos(m, d@), 0) == shifted(denom_pos(m.skip(i as int), d@), i as int),
        decreases balances@.len() - i,
    {
        assert(m.skip(i as int)[0] == m[i as int]);
        if balances[i].denom == *d {
            return Some(i);
        }
        assert(m.skip(i as int).drop_first() =~= m.skip(i + 1));
        i = i + 1;
    }
    None
}

/// Adds `coin` to its denomination's entry of `balances`, or appends it.
fn add_balance(balances: &mut Vec<Coin>, coin: &RawCoin) -> (r: Result<(), ContractError>)
    ensures
        r matches Ok(_) ==> add_coin(coins_model(old(balances)@), coin@) == Ok::<_, ContractError>(
            coins_model(final(balances)@),
        ),
        r matches Err(e) ==> add_coin(coins_model(old(balances)@), coin@) == Err::<Seq<CoinModel>, _>(e),
{
    let amount = match parse_amount(&coin.amount) {
        None => {
            return Err(ContractError::MalformedMessage);
        },
        Some(a) => a,
    };
    let ghost m = coins_model(balances@);
    match find_denom(balances, &coin.denom) {
        Some(k) => {
            let total = match balances[k].amount.checked_add(amount) {
                None => {
                    return Err(ContractError::AmountOverflow);
                },
                Some(t) => t,
            };
            let denom = balances[k].denom.clone();
            balances.set(k, Coin { denom, amount: total });
            assert(coins_model(balances@) =~= m.update(k as int, (m[k as int].0, total)));
        },
        None => {
            balances.push(Coin { denom: coin.denom.clone(), amount });
            assert(coins_model(balances@) =~= m.push((coin.denom@, amount)));
        },
    }
    Ok(())
}

/// Adds the coins `coins`, one by one, to `balances`.
fn add_balances(balances: &mut Vec<Coin>, coins: &Vec<RawCoin>) -> (r: Result<(), ContractError>)
    ensures
        r matches Ok(_) ==> add_coins(coins_model(old(balances)@), coins_view(coins@)) == Ok::<
            _,
            ContractError,
        >(coins_model(final(balances)@)),
        r matches Err(e) ==> add_coins(coins_model(old(balances)@), coins_view(coins@)) == Err::<
            Seq<CoinModel>,
            _,
        >(e),
{
    let ghost m0 = coins_model(balances@);
    let ghost cv = coins_view(coins@);
    let mut j: usize = 0;
    assert(cv.take(0) =~= Seq::<RawCoinView>::empty());
    while j < coins.len()
        invariant
            m0 == coins_model(old(balances)@),
            cv == coins_view(coins@),
            j <= coins@.len(),
            add_coins(m0, cv.take(j as int)) == Ok::<_, ContractError>(coins_model(balances@)),
        decreases coins@.len() - j,
    {
        assert(cv.take(j + 1).drop_last() =~= cv.take(j as int));
        assert(cv.take(j + 1).last() == coins@[j as int]@);
        match add_balance(balances, &coins[j]) {
            Err(e) => {
                proof {
                    lemma_add_coins_err(m0, cv, j + 1);
                }
                return Err(e);
            },
            Ok(()) => {},
        }
        j = j + 1;
    }
    assert(cv.take(j as int) =~= cv);
    Ok(())
}

/// Once adding a prefix of the coins fails, adding them all fails alike.
proof fn lemma_add_coins_err(bal: Seq<CoinModel>, cs: Seq<RawCoinView>, k: int)
    requires
        0 <= k <= cs.len(),
        add_coins(bal, cs.take(k)) is Err,
    ensures
        add_coins(bal, cs) == add_coins(bal, cs.take(k)),
    decreases cs.len() - k,
{
    if k < cs.len() {
        assert(cs.take(k + 1).drop_last() =~= cs.take(k));
        lemma_add_coins_err(bal, cs, k + 1);
    } else {
        assert(cs.take(k) =~= cs);
    }
}

/// The coin lists of `groups`, one after another.
fn concat_groups(groups: Vec<Vec<RawCoin>>) -> (r: Vec<RawCoin>)
    ensures
        coins_view(r@) == flatten(groups@.map_values(|g: Vec<RawCoin>| coins_view(g@))),
{
    let ghost gv = groups@.map_values(|g: Vec<RawCoin>| coins_view(g@));
    let mut rest = groups;
    let mut out: Vec<RawCoin> = Vec::new();
    let ghost mut i: int = 0;
    assert(gv.take(0) =~= Seq::<Seq<RawCoinView>>::empty());
    assert(coins_view(out@) =~= Seq::<RawCoinView>::empty());
    while rest.len() > 0
        invariant
            0 <= i <= gv.len(),
            rest@.len() == gv.len() - i,
            forall|k: int| 0 <= k < rest@.len() ==> coins_view((#[trigger] rest@[k])@) == gv[i + k],
            coins_view(out@) == flatten(gv.take(i)),
        decreases rest@.len(),
    {
        let mut g = rest.remove(0);
        let ghost before = out@;
        let ghost moved = g@;
        assert(coins_view(moved) == gv[i]);
        out.append(&mut g);
        assert(out@ == before + moved);
        assert(coins_view(out@) =~= coins_view(before) + coins_view(moved));
        assert forall|k: int| 0 <= k < rest@.len() implies coins_view((#[trigger] rest@[k])@) == gv[i
            + 1 + k] by {
        }
        assert(gv.take(i + 1).drop_last() =~= gv.take(i));
        proof {
            i = i + 1;
        }
    }
    assert(gv.take(i) =~= gv);
    out
}

fn single(c: Option<RawCoin>) -> (r: Vec<RawCoin>)
    ensures
        coins_view(r@) == list_of(
            match c {
                Some(x) => Some(x@),
                None => None,
            },
        ),
{
    let mut v: Vec<RawCoin> = Vec::new();
    match c {
        Some(x) => {
            v.push(x);
            assert(coins_view(v@) =~= seq![v@[0]@]);
        },
        None => {
            assert(coins_view(v@) =~= Seq::<RawCoinView>::empty());
        },
    }
    v
}

/// The contract-execute message that `msg` is, when it is one and decodes.
pub fn wasm_execute_msg(msg: &SdkMsg) -> (r: Option<WasmExecute>)
    ensures
        opt_execute_view(r) == if msg.type_url@ == WASM_EXECUTE@ {
            wasm_execute_of(msg.value@)
        } else {
            None
        },
{
    if text_is(&msg.type_url, WASM_EXECUTE) {
        decode_wasm_execute(msg.value.as_slice())
    } else {
        None
    }
}

/// The coins `msg` moves; `None` when it is of a known kind and its body
/// cannot be decoded.
pub fn carried_coins(msg: &SdkMsg) -> (r: Option<Vec<RawCoin>>)
    ensures
        opt_coins_view(r) == carried(msg.type_url@, msg.value@),
{
    let url = &msg.type_url;
    let b = msg.value.as_slice();
    if text_is(url, BANK_SEND) {
        decode_bank_send(b)
    } else if text_is(url, BANK_MULTI_SEND) {
        match decode_multi_send(b) {
            Some(gs) => Some(concat_groups(gs)),
            None => None,
        }
    } else if text_is(url, WASM_EXECUTE) {
        match decode_wasm_execute(b) {
            Some(w) => Some(w.funds),
            None => None,
        }
    } else if text_is(url, WASM_INSTANTIATE) {
        decode_wasm_instantiate(b)
    } else if text_is(url, WASM_INSTANTIATE2) {
        decode_wasm_instantiate2(b)
    } else if text_is(url, GOV_SUBMIT_PROPOSAL) {
        decode_gov_submit_proposal(b)
    } else if text_is(url, GOV_DEPOSIT_PROPOSAL) {
        decode_gov_deposit(b)
    } else if text_is(url, GOV_SUBMIT_PROPOSAL_V1) {
        decode_gov_v1_submit_proposal(b)
    } else if text_is(url, GOV_DEPOSIT_PROPOSAL_V1) {
        decode_gov_v1_deposit(b)
    } else if text_is(url, DIST_FUND_COMMUNITY_POOL) {
        decode_fund_community_pool(b)
    } else if text_is(url, STAKE_DELEGATE) {
        match decode_delegate(b) {
            Some(c) => Some(single(c)),
            None => None,
        }
    } else if text_is(url, VESTING_CREATE_VESTING_ACCOUNT) {
        decode_create_vesting_account(b)
    } else if text_is(url, VESTING_CREATE_PERMANENT_LOCKED_ACCOUNT) {
        decode_create_permanent_locked_account(b)
    } else if text_is(url, VESTING_CREATE_PERIODIC_VESTING_ACCOUNT) {
        match decode_create_periodic_vesting_account(b) {
            Some(gs) => Some(concat_groups(gs)),
            None => None,
        }
    } else if text_is(url, IBC_TRANSFER) {
        match decode_ibc_transfer(b) {
            Some(c) => Some(single(c)),
            None => None,
        }
    } else {
        let v: Vec<RawCoin> = Vec::new();
        assert(coins_view(v@) =~= Seq::<RawCoinView>::empty());
        Some(v)
    }
}

/// The per-denomination totals that the messages `msgs` move, in order of
/// first appearance. Messages of unknown kinds move nothing; a known kind
/// that cannot be decoded, an amount that is not a decimal number, or a total
/// beyond 128 bits is an error.
pub fn get_transfer_balances(msgs: Vec<SdkMsg>) -> (r: Result<Vec<Coin>, ContractError>)
    ensures
        r is Ok <==> transfer_balances(msgs@) is Ok,
        r matches Ok(b) ==> transfer_balances(msgs@) == Ok::<_, ContractError>(coins_model(b@)),
        r matches Err(e) ==> transfer_balances(msgs@) == Err::<Seq<CoinModel>, _>(e),
{
    let mut balances: Vec<Coin> = Vec::new();
    let mut i: usize = 0;
    assert(msgs@.take(0) =~= Seq::<SdkMsg>::empty());
    assert(coins_model(balances@) =~= Seq::<CoinModel>::empty());
    while i < msgs.len()
        invariant
            i <= msgs@.len(),
            transfer_balances(msgs@.take(i as int)) == Ok::<_, ContractError>(coins_model(balances@)),
        decreases msgs@.len() - i,
    {
        assert(msgs@.take(i + 1).drop_last() =~= msgs@.take(i as int));
        let coins = match carried_coins(&msgs[i]) {
            None => {
                proof {
                    lemma_transfer_err(msgs@, i + 1);
                }
                return Err(ContractError::MalformedMessage);
            },
            Some(c) => c,
        };
        match add_balances(&mut balances, &coins) {
            Err(e) => {
                proof {
                    lemma_transfer_err(msgs@, i + 1);
                }
                return Err(e);
            },
            Ok(()) => {},
        }
        i = i + 1;
    }
    assert(msgs@.take(i as int) =~= msgs@);
    Ok(balances)
}

/// Once the totals of a prefix of the messages fail, those of all fail alike.
proof fn lemma_transfer_err(msgs: Seq<SdkMsg>, k: int)
    requires
        0 <= k <= msgs.len(),
        transfer_balances(msgs.take(k)) is Err,
    ensures
        transfer_balances(msgs) == transfer_balances(msgs.take(k)),
    decreases msgs.len() - k,
{
    if k < msgs.len() {
        assert(msgs.take(k + 1).drop_last() =~= msgs.take(k));
        lemma_transfer_err(msgs, k + 1);
    } else {
        assert(msgs.take(k) =~= msgs);
    }
}

} // verus!
