use cosmos_sdk_proto::cosmos::bank::v1beta1::{Input, MsgMultiSend, MsgSend, Output};
use cosmos_sdk_proto::cosmos::base::v1beta1::Coin as ProtoCoin;
use cosmos_sdk_proto::cosmos::distribution::v1beta1::MsgFundCommunityPool;
use cosmos_sdk_proto::cosmos::gov::v1::{MsgDeposit as MsgDepositV1, MsgSubmitProposal as MsgSubmitProposalV1};
use cosmos_sdk_proto::cosmos::gov::v1beta1::{MsgDeposit, MsgSubmitProposal};
use cosmos_sdk_proto::cosmos::staking::v1beta1::MsgDelegate;
use cosmos_sdk_proto::cosmos::vesting::v1beta1::{
    MsgCreatePeriodicVestingAccount, MsgCreatePermanentLockedAccount, MsgCreateVestingAccount, Period,
};
use cosmos_sdk_proto::cosmwasm::wasm::v1::{MsgExecuteContract, MsgInstantiateContract, MsgInstantiateContract2};
use cosmos_sdk_proto::ibc::applications::transfer::v1::MsgTransfer;
use cosmos_sdk_proto::traits::Message;
use pyxis_sm::error::ContractError;
use pyxis_sm::msg::{Coin, SdkMsg};
use pyxis_sm::spend_limit::{
    add_limit, delete_limit, evaluate_limits, handle_after_execute, load_limits, register_account,
    update_limit, validate_limit, Limit, LimitPerTransaction, LimitPeriodic, MAX_SEC_PERIODIC,
};
use pyxis_sm::tracked_msgs::{
    carried_coins, get_transfer_balances, parse_amount, wasm_execute_msg, BANK_MULTI_SEND, BANK_SEND,
    DIST_FUND_COMMUNITY_POOL, GOV_DEPOSIT_PROPOSAL, GOV_DEPOSIT_PROPOSAL_V1, GOV_SUBMIT_PROPOSAL,
    GOV_SUBMIT_PROPOSAL_V1, IBC_TRANSFER, STAKE_DELEGATE, VESTING_CREATE_PERIODIC_VESTING_ACCOUNT,
    VESTING_CREATE_PERMANENT_LOCKED_ACCOUNT, VESTING_CREATE_VESTING_ACCOUNT, WASM_EXECUTE,
    WASM_INSTANTIATE, WASM_INSTANTIATE2,
};

fn proto_coin(denom: &str, amount: &str) -> ProtoCoin {
    ProtoCoin { denom: denom.to_string(), amount: amount.to_string() }
}

fn send(coins: Vec<ProtoCoin>) -> SdkMsg {
    let m = MsgSend { from_address: "a".into(), to_address: "b".into(), amount: coins };
    SdkMsg { type_url: BANK_SEND.to_string(), value: m.encode_to_vec() }
}

fn coin(denom: &str, amount: u128) -> Coin {
    Coin { denom: denom.to_string(), amount }
}

fn per_tx(denom: &str, amount: u128) -> Limit {
    Limit::PerTransaction(LimitPerTransaction { limit: coin(denom, amount) })
}

fn periodic(denom: &str, amount: u128, begin: u64, period: u64) -> Limit {
    Limit::Periodic(LimitPeriodic { limit: coin(denom, amount), used: 0, begin_period: begin, periodic: period })
}

fn used_of(l: &Limit) -> (u128, u64) {
    match l {
        Limit::Periodic(p) => (p.used, p.begin_period),
        Limit::PerTransaction(_) => panic!("not periodic"),
    }
}

#[test]
fn per_transaction_limit_boundary() {
    let mut limits = vec![per_tx("uX", 100)];
    let r = handle_after_execute(&mut limits, vec![send(vec![proto_coin("uX", "101")])], 1000);
    match r {
        Err(ContractError::ReachTransactionSpendLimit { denom, limit, spent_amount }) => {
            assert_eq!(denom, "uX");
            assert_eq!(limit, 100);
            assert_eq!(spent_amount, 101);
        }
        other => panic!("unexpected {:?}", other),
    }
    assert!(handle_after_execute(&mut limits, vec![send(vec![proto_coin("uX", "100")])], 1000).is_ok());
    // no accumulation across transactions
    assert!(handle_after_execute(&mut limits, vec![send(vec![proto_coin("uX", "100")])], 1000).is_ok());
}

#[test]
fn periodic_limit_window_and_rollover() {
    let mut limits = vec![periodic("uX", 100, 1000, 3600)];
    assert!(handle_after_execute(&mut limits, vec![send(vec![proto_coin("uX", "60")])], 1010).is_ok());
    assert_eq!(used_of(&limits[0]), (60, 1000));
    assert!(handle_after_execute(&mut limits, vec![send(vec![proto_coin("uX", "40")])], 2000).is_ok());
    assert_eq!(used_of(&limits[0]), (100, 1000));
    let r = handle_after_execute(&mut limits, vec![send(vec![proto_coin("uX", "1")])], 3000);
    match r {
        Err(ContractError::ReachPeriodicSpendLimit { denom, limit, begin_period, periodic, spent_amount }) => {
            assert_eq!(denom, "uX");
            assert_eq!(limit, 100);
            assert_eq!(begin_period, 1000);
            assert_eq!(periodic, 3600);
            assert_eq!(spent_amount, 101);
        }
        other => panic!("unexpected {:?}", other),
    }
    assert_eq!(used_of(&limits[0]), (100, 1000));
    // window rolled over: fresh spend is accepted
    assert!(handle_after_execute(&mut limits, vec![send(vec![proto_coin("uX", "1")])], 4605).is_ok());
    assert_eq!(used_of(&limits[0]), (1, 4600));
}

#[test]
fn periodic_window_rolls_by_whole_periods() {
    let mut limits = vec![periodic("uX", 100, 0, 100)];
    let spend = vec![coin("uX", 5)];
    evaluate_limits(&mut limits, &spend, 1050).unwrap();
    assert_eq!(used_of(&limits[0]), (5, 1000));
    // at the window's end the window is still current
    evaluate_limits(&mut limits, &spend, 1100).unwrap();
    assert_eq!(used_of(&limits[0]), (10, 1000));
}

#[test]
fn rejection_leaves_all_limits_unchanged() {
    let mut limits = vec![periodic("uX", 100, 0, 100), per_tx("uY", 10)];
    let spend = vec![coin("uX", 5), coin("uY", 11)];
    let r = evaluate_limits(&mut limits, &spend, 50);
    assert!(matches!(r, Err(ContractError::ReachTransactionSpendLimit { .. })));
    assert_eq!(used_of(&limits[0]), (0, 0));
}

#[test]
fn other_denominations_do_not_count() {
    let mut limits = vec![per_tx("uX", 10), periodic("uZ", 1, 0, 100)];
    let r = handle_after_execute(&mut limits, vec![send(vec![proto_coin("uY", "1000")])], 500);
    assert!(r.is_ok());
    assert_eq!(used_of(&limits[1]), (0, 0));
}

#[test]
fn limit_validation_errors() {
    assert!(matches!(validate_limit(&periodic("uX", 1, 0, 0), 0), Err(ContractError::ZeroPeriod)));
    assert!(matches!(
        validate_limit(&periodic("uX", 1, 0, MAX_SEC_PERIODIC + 1), 0),
        Err(ContractError::PeriodTooLarge)
    ));
    assert!(validate_limit(&periodic("uX", 1, 0, MAX_SEC_PERIODIC), 0).is_ok());
    assert!(matches!(
        validate_limit(&periodic("uX", 1, 10 + MAX_SEC_PERIODIC + 1, 10), 10),
        Err(ContractError::BeginPeriodTooFar)
    ));
    assert!(validate_limit(&periodic("uX", 1, 10 + MAX_SEC_PERIODIC, 10), 10).is_ok());
    assert!(validate_limit(&per_tx("uX", 0), 0).is_ok());
}

#[test]
fn limit_list_editing() {
    let mut limits = register_account(&None).unwrap();
    assert!(limits.is_empty());
    assert!(matches!(register_account(&Some(vec![])), Err(ContractError::AccountAlreadyRegister)));
    assert!(matches!(load_limits(None), Err(ContractError::AccountNotRegistered)));
    add_limit(&mut limits, per_tx("uX", 5), 0).unwrap();
    assert!(add_limit(&mut limits, periodic("uX", 5, 0, 0), 0).is_err());
    assert_eq!(limits.len(), 1);
    assert!(matches!(update_limit(&mut limits, 1, per_tx("uY", 1), 0), Err(ContractError::OutOfRange)));
    update_limit(&mut limits, 0, per_tx("uY", 1), 0).unwrap();
    match &limits[0] {
        Limit::PerTransaction(t) => assert_eq!(t.limit.denom, "uY"),
        _ => panic!("wrong kind"),
    }
    assert!(matches!(delete_limit(&mut limits, 1), Err(ContractError::OutOfRange)));
    delete_limit(&mut limits, 0).unwrap();
    assert!(limits.is_empty());
}

#[test]
fn end_period_is_begin_plus_period() {
    let p = LimitPeriodic { limit: coin("uX", 1), used: 0, begin_period: 1000, periodic: 3600 };
    assert_eq!(p.end_period(), 4600);
}

#[test]
fn transfer_balances_add_up_per_denomination() {
    let multi = MsgMultiSend {
        inputs: vec![
            Input { address: "a".into(), coins: vec![proto_coin("uX", "3"), proto_coin("uY", "4")] },
            Input { address: "b".into(), coins: vec![proto_coin("uX", "5")] },
        ],
        outputs: vec![Output { address: "c".into(), coins: vec![proto_coin("uX", "8"), proto_coin("uY", "4")] }],
    };
    let delegate = MsgDelegate {
        delegator_address: "a".into(),
        validator_address: "v".into(),
        amount: Some(proto_coin("uZ", "7")),
    };
    let ibc = MsgTransfer { token: Some(proto_coin("uX", "+10")), ..Default::default() };
    let msgs = vec![
        send(vec![proto_coin("uY", "1")]),
        SdkMsg { type_url: BANK_MULTI_SEND.to_string(), value: multi.encode_to_vec() },
        SdkMsg { type_url: "/cosmos.unknown.v1.MsgWhatever".to_string(), value: vec![1, 2, 3] },
        SdkMsg { type_url: STAKE_DELEGATE.to_string(), value: delegate.encode_to_vec() },
        SdkMsg { type_url: IBC_TRANSFER.to_string(), value: ibc.encode_to_vec() },
    ];
    let b = get_transfer_balances(msgs).unwrap();
    let got: Vec<(&str, u128)> = b.iter().map(|c| (c.denom.as_str(), c.amount)).collect();
    assert_eq!(got, vec![("uY", 5), ("uX", 18), ("uZ", 7)]);
}

#[test]
fn execute_contract_funds_and_target_are_read() {
    let exec = MsgExecuteContract {
        sender: "acct".into(),
        contract: "dex".into(),
        msg: b"{\"swap\":{}}".to_vec(),
        funds: vec![proto_coin("uX", "12")],
    };
    let m = SdkMsg { type_url: WASM_EXECUTE.to_string(), value: exec.encode_to_vec() };
    let w = wasm_execute_msg(&m).unwrap();
    assert_eq!(w.contract, "dex");
    assert_eq!(w.msg, b"{\"swap\":{}}".to_vec());
    assert_eq!(w.funds.len(), 1);
    assert_eq!(w.funds[0].amount, "12");
    let b = get_transfer_balances(vec![m.clone()]).unwrap();
    assert_eq!(b.len(), 1);
    assert_eq!(b[0].amount, 12);
    let not_exec = SdkMsg { type_url: BANK_SEND.to_string(), value: m.value.clone() };
    assert!(wasm_execute_msg(&not_exec).is_none());
}

#[test]
fn malformed_transfer_messages_are_errors() {
    let garbage = SdkMsg { type_url: BANK_SEND.to_string(), value: vec![0xff, 0xff, 0xff] };
    assert!(matches!(get_transfer_balances(vec![garbage]), Err(ContractError::MalformedMessage)));
    let bad_amount = send(vec![proto_coin("uX", "12a")]);
    assert!(matches!(get_transfer_balances(vec![bad_amount]), Err(ContractError::MalformedMessage)));
    let max = u128::MAX.to_string();
    let overflow = send(vec![proto_coin("uX", &max), proto_coin("uX", "1")]);
    assert!(matches!(get_transfer_balances(vec![overflow]), Err(ContractError::AmountOverflow)));
    assert!(get_transfer_balances(vec![]).unwrap().is_empty());
}

#[test]
fn decimal_amounts() {
    assert_eq!(parse_amount(&"0".to_string()), Some(0));
    assert_eq!(parse_amount(&"1234567".to_string()), Some(1234567));
    assert_eq!(parse_amount(&"+42".to_string()), Some(42));
    assert_eq!(parse_amount(&u128::MAX.to_string()), Some(u128::MAX));
    assert_eq!(parse_amount(&"340282366920938463463374607431768211456".to_string()), None);
    assert_eq!(parse_amount(&"".to_string()), None);
    assert_eq!(parse_amount(&"+".to_string()), None);
    assert_eq!(parse_amount(&"-1".to_string()), None);
    assert_eq!(parse_amount(&"1 000".to_string()), None);
}

fn amounts_of(msg: SdkMsg) -> Vec<(String, String)> {
    carried_coins(&msg).expect("decodes").into_iter().map(|c| (c.denom, c.amount)).collect()
}

fn one(denom: &str, amount: &str) -> Vec<(String, String)> {
    vec![(denom.to_string(), amount.to_string())]
}

#[test]
fn every_tracked_kind_is_read() {
    let c = || vec![proto_coin("uA", "11")];
    let m = |url: &str, value: Vec<u8>| SdkMsg { type_url: url.to_string(), value };
    let inst = MsgInstantiateContract { funds: c(), code_id: 3, ..Default::default() };
    assert_eq!(amounts_of(m(WASM_INSTANTIATE, inst.encode_to_vec())), one("uA", "11"));
    let inst2 = MsgInstantiateContract2 { funds: c(), salt: vec![1], ..Default::default() };
    assert_eq!(amounts_of(m(WASM_INSTANTIATE2, inst2.encode_to_vec())), one("uA", "11"));
    let prop = MsgSubmitProposal { initial_deposit: c(), ..Default::default() };
    assert_eq!(amounts_of(m(GOV_SUBMIT_PROPOSAL, prop.encode_to_vec())), one("uA", "11"));
    let dep = MsgDeposit { proposal_id: 1, amount: c(), ..Default::default() };
    assert_eq!(amounts_of(m(GOV_DEPOSIT_PROPOSAL, dep.encode_to_vec())), one("uA", "11"));
    let prop1 = MsgSubmitProposalV1 { initial_deposit: c(), ..Default::default() };
    assert_eq!(amounts_of(m(GOV_SUBMIT_PROPOSAL_V1, prop1.encode_to_vec())), one("uA", "11"));
    let dep1 = MsgDepositV1 { proposal_id: 1, amount: c(), ..Default::default() };
    assert_eq!(amounts_of(m(GOV_DEPOSIT_PROPOSAL_V1, dep1.encode_to_vec())), one("uA", "11"));
    let pool = MsgFundCommunityPool { amount: c(), depositor: "d".into() };
    assert_eq!(amounts_of(m(DIST_FUND_COMMUNITY_POOL, pool.encode_to_vec())), one("uA", "11"));
    let vest = MsgCreateVestingAccount { amount: c(), end_time: 5, ..Default::default() };
    assert_eq!(amounts_of(m(VESTING_CREATE_VESTING_ACCOUNT, vest.encode_to_vec())), one("uA", "11"));
    let locked = MsgCreatePermanentLockedAccount { amount: c(), ..Default::default() };
    assert_eq!(amounts_of(m(VESTING_CREATE_PERMANENT_LOCKED_ACCOUNT, locked.encode_to_vec())), one("uA", "11"));
    let periodic = MsgCreatePeriodicVestingAccount {
        vesting_periods: vec![
            Period { length: 1, amount: vec![proto_coin("uA", "1")] },
            Period { length: 2, amount: vec![proto_coin("uB", "2"), proto_coin("uA", "3")] },
        ],
        ..Default::default()
    };
    assert_eq!(
        amounts_of(m(VESTING_CREATE_PERIODIC_VESTING_ACCOUNT, periodic.encode_to_vec())),
        vec![("uA".to_string(), "1".to_string()), ("uB".to_string(), "2".to_string()), ("uA".to_string(), "3".to_string())]
    );
    let no_token = MsgTransfer { token: None, ..Default::default() };
    assert!(amounts_of(m(IBC_TRANSFER, no_token.encode_to_vec())).is_empty());
    let no_amount = MsgDelegate { amount: None, ..Default::default() };
    assert!(amounts_of(m(STAKE_DELEGATE, no_amount.encode_to_vec())).is_empty());
    let b = get_transfer_balances(vec![m(VESTING_CREATE_PERIODIC_VESTING_ACCOUNT, periodic.encode_to_vec())]).unwrap();
    let got: Vec<(&str, u128)> = b.iter().map(|c| (c.denom.as_str(), c.amount)).collect();
    assert_eq!(got, vec![("uA", 4), ("uB", 2)]);
}
