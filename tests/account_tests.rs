use pyxis_sm::account::{Account, ExecuteMsg, Plugin, PluginCall, PluginMsg};
use pyxis_sm::dispatch::ContractCall;
use pyxis_sm::error::ContractError;
use pyxis_sm::msg::{AuthzInfo, PluginResponse, PluginStatus, PluginType, UnregisterRequirement};
use pyxis_sm::plugins::{recovery_recover, sample_verdict, RecoveryConfig};

const SM_ADDRESS: &str = "contract1";

fn allowed(name: &str, plugin_type: PluginType, code_id: u64) -> PluginResponse {
    PluginResponse {
        name: name.to_string(),
        plugin_type,
        version: "v0.1.0".to_string(),
        address: name.to_string(),
        code_id,
        status: PluginStatus::Active,
        unregister_req: UnregisterRequirement::NotRequired,
    }
}

fn register(account: &mut Account, name: &str, config: &str) -> Result<PluginCall, ContractError> {
    account.register_plugin(
        name.to_string(),
        config.to_string(),
        vec![],
        Ok(allowed(name, PluginType::Other, 7)),
        Ok(7),
    )
}

/// Runs the sample plugin's hook for each call, in order, as the host does:
/// the first rejection aborts the transaction.
fn run_sample_hooks(account: &Account, calls: &[PluginCall]) -> Result<(), ContractError> {
    for call in calls {
        let plugin = account
            .plugins
            .iter()
            .find(|p| p.contract_address == call.contract_addr)
            .expect("called plugin is registered");
        sample_verdict(&plugin.config)?;
    }
    Ok(())
}

fn no_authz() -> AuthzInfo {
    AuthzInfo { grantee: String::new() }
}

#[test]
fn plugin_tests_proper_instantiation() {
    let account = Account::new("plugin_manager_addr".to_string());
    assert_eq!(0, account.plugins.len());
    assert!(!account.config.recoverable);
    assert_eq!(account.config.plugin_manager_addr, "plugin_manager_addr");
}

#[test]
fn recovery_tests_proper_instantiation() {
    let account = Account::new("plugin_manager_addr".to_string());
    assert_eq!(0, account.pre_execute(&SM_ADDRESS.to_string(), &vec![]).len());
}

#[test]
fn cannot_register_plugin_without_plugin_manager() {
    let mut account = Account::new("plugin_manager".to_string());
    let response = account.register_plugin(
        "plugin_1".to_string(),
        "config".to_string(),
        vec![],
        Err("plugin not found".to_string()),
        Ok(7),
    );
    assert!(response.is_err());
    assert_eq!(0, account.plugins.len());
}

#[test]
fn register_plugin() {
    let mut account = Account::new("plugin_manager".to_string());
    let response = register(&mut account, "plugin_1", "config");
    assert!(response.is_ok());
    let call = response.unwrap();
    assert_eq!(call.contract_addr, "plugin_1");
    assert!(matches!(call.msg, PluginMsg::Register { ref config } if config == "config"));
    assert_eq!(account.plugins.len(), 1);
    assert_eq!(account.plugins[0].status, PluginStatus::Active);
}

#[test]
fn cannot_register_same_plugin() {
    let mut account = Account::new("plugin_manager".to_string());
    assert!(register(&mut account, "plugin_1", "config").is_ok());
    let response = register(&mut account, "plugin_1", "config");
    assert!(response.is_err());
    assert!(matches!(response, Err(ContractError::AlreadyRegistered)));
}

#[test]
fn registering_again_fails_whatever_the_config() {
    let mut account = Account::new("plugin_manager".to_string());
    register(&mut account, "plugin_1", "approve").unwrap();
    let response = register(&mut account, "plugin_1", "something else");
    assert!(matches!(response, Err(ContractError::AlreadyRegistered)));
    assert_eq!(account.plugins.len(), 1);
    assert_eq!(account.plugins[0].config, "approve");
}

#[test]
fn can_register_two_plugins() {
    let mut account = Account::new("plugin_manager".to_string());
    register(&mut account, "plugin_1", "config").unwrap();
    let response = register(&mut account, "plugin_2", "config");
    assert!(response.is_ok());
    assert_eq!(account.plugins.len(), 2);
}

#[test]
fn register_errors_come_in_order() {
    let mut account = Account::new("pm".to_string());
    let mut disabled = allowed("p", PluginType::Other, 7);
    disabled.status = PluginStatus::Inactive;
    let r = account.register_plugin("p".into(), "c".into(), vec![], Ok(disabled), Ok(7));
    assert!(matches!(r, Err(ContractError::PluginDisabled)));
    let r = account.register_plugin(
        "p".into(),
        "c".into(),
        vec![],
        Ok(allowed("p", PluginType::Other, 7)),
        Ok(8),
    );
    assert!(matches!(r, Err(ContractError::InvalidCodeIdentity)));
    let r = account.register_plugin(
        "p".into(),
        "c".into(),
        vec![],
        Ok(allowed("p", PluginType::Other, 7)),
        Err("no contract".into()),
    );
    assert!(matches!(r, Err(ContractError::Std { ref msg }) if msg == "no contract"));
    assert_eq!(account.plugins.len(), 0);
}

#[test]
fn registry_is_kept_in_address_order() {
    let mut account = Account::new("pm".to_string());
    for name in ["plugin_3", "plugin_1", "plugin_4", "plugin_2"] {
        register(&mut account, name, "approve").unwrap();
    }
    let addresses: Vec<&str> = account.plugins.iter().map(|p| p.contract_address.as_str()).collect();
    assert_eq!(addresses, vec!["plugin_1", "plugin_2", "plugin_3", "plugin_4"]);
}

#[test]
fn pre_execute_without_plugin() {
    let account = Account::new("plugin_manager".to_string());
    let calls = account.pre_execute(&SM_ADDRESS.to_string(), &vec![]);
    let response = run_sample_hooks(&account, &calls);
    assert!(response.is_ok());
}

#[test]
fn pre_execute_with_a_plugin_always_reject() {
    let mut account = Account::new("plugin_manager".to_string());
    register(&mut account, "plugin_1", "reject").unwrap();
    let calls = account.pre_execute(&SM_ADDRESS.to_string(), &vec![]);
    let response = run_sample_hooks(&account, &calls);
    assert!(response.is_err());
}

#[test]
fn pre_execute_and_plugin_approve() {
    let mut account = Account::new("plugin_manager".to_string());
    register(&mut account, "plugin_1", "approve").unwrap();
    let calls = account.pre_execute(&SM_ADDRESS.to_string(), &vec![]);
    let response = run_sample_hooks(&account, &calls);
    assert!(response.is_ok());
}

#[test]
fn pre_execute_and_one_plugin_reject() {
    let mut account = Account::new("plugin_manager".to_string());
    register(&mut account, "plugin_1", "approve").unwrap();
    register(&mut account, "plugin_2", "reject").unwrap();
    let calls = account.pre_execute(&SM_ADDRESS.to_string(), &vec![]);
    assert_eq!(calls.len(), 2);
    let response = run_sample_hooks(&account, &calls);
    assert!(response.is_err());
}

#[test]
fn after_execute_without_plugin_success() {
    let account = Account::new("plugin_manager".to_string());
    let calls = account.after_execute(&SM_ADDRESS.to_string(), &vec![], &no_authz()).unwrap();
    let response = run_sample_hooks(&account, &calls);
    assert!(response.is_ok());
}

#[test]
fn after_execute_and_plugin_reject() {
    let mut account = Account::new("plugin_manager".to_string());
    register(&mut account, "plugin_1", "reject").unwrap();
    let calls = account.after_execute(&SM_ADDRESS.to_string(), &vec![], &no_authz()).unwrap();
    let response = run_sample_hooks(&account, &calls);
    assert!(response.is_err());
}

#[test]
fn after_execute_and_plugin_approve() {
    let mut account = Account::new("plugin_manager".to_string());
    register(&mut account, "plugin_1", "approve").unwrap();
    let calls = account.after_execute(&SM_ADDRESS.to_string(), &vec![], &no_authz()).unwrap();
    let response = run_sample_hooks(&account, &calls);
    assert!(response.is_ok());
}

#[test]
fn each_active_guard_called_once_before_execution() {
    let mut account = Account::new("pm".to_string());
    register(&mut account, "plugin_1", "approve").unwrap();
    register(&mut account, "plugin_2", "approve").unwrap();
    register(&mut account, "plugin_3", "approve").unwrap();
    account.update_plugin("plugin_3".into(), PluginStatus::Inactive, Err("gone".into())).unwrap();
    let unrelated = vec![
        None,
        Some(ContractCall {
            contract: "some_dex".to_string(),
            account_msg: None,
            plugin_msg: false,
            recovery_plugin_msg: false,
        }),
    ];
    let calls = account.pre_execute(&SM_ADDRESS.to_string(), &unrelated);
    let targets: Vec<&str> = calls.iter().map(|c| c.contract_addr.as_str()).collect();
    assert_eq!(targets, vec!["plugin_1", "plugin_2"]);
    assert!(calls.iter().all(|c| matches!(c.msg, PluginMsg::PreExecute) && c.funds.is_empty()));
}

#[test]
fn unregistering_plugin_is_not_asked_before_execution() {
    let mut account = Account::new("pm".to_string());
    register(&mut account, "plugin_1", "reject").unwrap();
    register(&mut account, "plugin_2", "approve").unwrap();
    let shapes = vec![Some(ContractCall {
        contract: SM_ADDRESS.to_string(),
        account_msg: Some(ExecuteMsg::UnregisterPlugin { plugin_address: "plugin_1".to_string() }),
        plugin_msg: false,
        recovery_plugin_msg: false,
    })];
    let calls = account.pre_execute(&SM_ADDRESS.to_string(), &shapes);
    let targets: Vec<&str> = calls.iter().map(|c| c.contract_addr.as_str()).collect();
    assert_eq!(targets, vec!["plugin_2"]);
    assert!(run_sample_hooks(&account, &calls).is_ok());
    assert_eq!(account.plugins[0].status, PluginStatus::Active);
}

#[test]
fn just_registered_plugin_is_not_asked_after_execution() {
    let mut account = Account::new("pm".to_string());
    register(&mut account, "plugin_1", "approve").unwrap();
    register(&mut account, "plugin_2", "approve").unwrap();
    let shapes = vec![Some(ContractCall {
        contract: SM_ADDRESS.to_string(),
        account_msg: Some(ExecuteMsg::RegisterPlugin {
            plugin_address: "plugin_2".to_string(),
            config: "approve".to_string(),
        }),
        plugin_msg: false,
        recovery_plugin_msg: false,
    })];
    let before = account.pre_execute(&SM_ADDRESS.to_string(), &shapes);
    assert_eq!(before.len(), 2);
    let after = account.after_execute(&SM_ADDRESS.to_string(), &shapes, &no_authz()).unwrap();
    assert_eq!(after.len(), 1);
    assert_eq!(after[0].contract_addr, "plugin_1");
    assert!(matches!(after[0].msg, PluginMsg::AfterExecute));
}

#[test]
fn direct_plugin_hook_call_is_unauthorized() {
    let mut account = Account::new("pm".to_string());
    register(&mut account, "plugin_1", "approve").unwrap();
    let shapes = vec![Some(ContractCall {
        contract: "plugin_1".to_string(),
        account_msg: None,
        plugin_msg: true,
        recovery_plugin_msg: false,
    })];
    let r = account.after_execute(&SM_ADDRESS.to_string(), &shapes, &no_authz());
    assert!(matches!(r, Err(ContractError::Unauthorized)));
    let harmless = vec![Some(ContractCall {
        contract: "plugin_1".to_string(),
        account_msg: None,
        plugin_msg: false,
        recovery_plugin_msg: false,
    })];
    assert!(account.after_execute(&SM_ADDRESS.to_string(), &harmless, &no_authz()).is_ok());
}

#[test]
fn grantee_cannot_reconfigure_account() {
    let account = Account::new("pm".to_string());
    let shapes = vec![Some(ContractCall {
        contract: SM_ADDRESS.to_string(),
        account_msg: Some(ExecuteMsg::UnregisterPlugin { plugin_address: "x".to_string() }),
        plugin_msg: false,
        recovery_plugin_msg: false,
    })];
    let grantee = AuthzInfo { grantee: "granter_bot".to_string() };
    assert!(grantee.is_authz());
    assert!(!no_authz().is_authz());
    let r = account.after_execute(&SM_ADDRESS.to_string(), &shapes, &grantee);
    assert!(matches!(r, Err(ContractError::Unauthorized)));
    assert!(account.after_execute(&SM_ADDRESS.to_string(), &shapes, &no_authz()).is_ok());
}

#[test]
fn unregister_notifies_only_enabled_plugins() {
    let mut account = Account::new("pm".to_string());
    register(&mut account, "plugin_1", "approve").unwrap();
    register(&mut account, "plugin_2", "approve").unwrap();
    let r = account.unregister_plugin("plugin_1".into(), vec![], Ok(allowed("plugin_1", PluginType::Other, 7)));
    let call = r.unwrap().unwrap();
    assert_eq!(call.contract_addr, "plugin_1");
    assert!(matches!(call.msg, PluginMsg::Unregister));
    let r = account.unregister_plugin("plugin_2".into(), vec![], Err("manager down".into()));
    assert!(r.unwrap().is_none());
    assert_eq!(account.plugins.len(), 0);
    let r = account.unregister_plugin("plugin_2".into(), vec![], Err("manager down".into()));
    assert!(matches!(r, Err(ContractError::NotFound)));
}

#[test]
fn update_status_rules() {
    let mut account = Account::new("pm".to_string());
    register(&mut account, "plugin_1", "approve").unwrap();
    let enabled = Ok(allowed("plugin_1", PluginType::Other, 7));
    let r = account.update_plugin("plugin_1".into(), PluginStatus::Active, enabled.clone());
    assert!(matches!(r, Err(ContractError::NoStatusChange)));
    let r = account.update_plugin("plugin_1".into(), PluginStatus::Inactive, enabled.clone());
    assert!(matches!(r, Err(ContractError::StillEnabledByManager)));
    let mut revoked = allowed("plugin_1", PluginType::Other, 7);
    revoked.status = PluginStatus::Inactive;
    account.update_plugin("plugin_1".into(), PluginStatus::Inactive, Ok(revoked)).unwrap();
    assert_eq!(account.plugins[0].status, PluginStatus::Inactive);
    account.update_plugin("plugin_1".into(), PluginStatus::Active, enabled).unwrap();
    assert_eq!(account.plugins[0].status, PluginStatus::Active);
    let r = account.update_plugin("nope".into(), PluginStatus::Active, Err("x".into()));
    assert!(matches!(r, Err(ContractError::NotFound)));
}

fn register_recovery(account: &mut Account, name: &str) -> Result<PluginCall, ContractError> {
    account.register_plugin(
        name.to_string(),
        "{}".to_string(),
        vec![],
        Ok(allowed(name, PluginType::Recovery, 9)),
        Ok(9),
    )
}

#[test]
fn cannot_recover_when_not_set_plugin() {
    let account = Account::new("plugin_manager".to_string());
    let response = account.recover("recoverer".to_string(), vec![], vec![]);
    assert!(response.is_err());
    assert!(matches!(response, Err(ContractError::RecoveryNotEnabled)));
}

#[test]
fn can_recover() {
    let mut account = Account::new("plugin_manager".to_string());
    register_recovery(&mut account, "recovery_plugin").unwrap();
    assert!(account.config.recoverable);
    let stored = Some(RecoveryConfig {
        smart_account_address: SM_ADDRESS.to_string(),
        recover_address: "recoverer".to_string(),
    });

    // call with incorrect caller will fail
    let call = account.recover("incorrect_caller".to_string(), vec![], vec![]).unwrap();
    assert_eq!(call.contract_addr, "recovery_plugin");
    let response = match call.msg {
        PluginMsg::Recover { caller, .. } => recovery_recover(&stored, &caller),
        _ => panic!("not a recovery call"),
    };
    assert!(response.is_err());

    // call with correct caller should succeed, and again
    for _ in 0..2 {
        let call = account.recover("recoverer".to_string(), vec![], vec![]).unwrap();
        let response = match call.msg {
            PluginMsg::Recover { caller, .. } => recovery_recover(&stored, &caller),
            _ => panic!("not a recovery call"),
        };
        assert!(response.is_ok());
    }
}

#[test]
fn second_recovery_plugin_refused_and_unregister_disables_recovery() {
    let mut account = Account::new("pm".to_string());
    register_recovery(&mut account, "recovery_1").unwrap();
    let r = register_recovery(&mut account, "recovery_2");
    assert!(matches!(r, Err(ContractError::RecoveryAlreadyRegistered)));
    assert_eq!(account.plugins.len(), 1);
    account.unregister_plugin("recovery_1".into(), vec![], Err("gone".into())).unwrap();
    assert!(!account.config.recoverable);
    let r = account.recover("recoverer".to_string(), vec![], vec![]);
    assert!(matches!(r, Err(ContractError::RecoveryNotEnabled)));
    assert!(register_recovery(&mut account, "recovery_2").is_ok());
}

#[test]
fn recovery_plugins_are_not_transaction_guards() {
    let mut account = Account::new("pm".to_string());
    register_recovery(&mut account, "recovery_1").unwrap();
    register(&mut account, "plugin_1", "approve").unwrap();
    let calls = account.pre_execute(&SM_ADDRESS.to_string(), &vec![]);
    assert_eq!(calls.len(), 1);
    assert_eq!(calls[0].contract_addr, "plugin_1");
}

#[test]
fn pagination_pages_follow_each_other() {
    let mut account = Account::new("pm".to_string());
    for name in ["p5", "p3", "p1", "p4", "p2"] {
        register(&mut account, name, "approve").unwrap();
    }
    let first: Vec<Plugin> = account.all_plugins(None, Some(2));
    let names: Vec<&str> = first.iter().map(|p| p.contract_address.as_str()).collect();
    assert_eq!(names, vec!["p1", "p2"]);
    let next = account.all_plugins(Some(first[1].contract_address.clone()), Some(2));
    let names: Vec<&str> = next.iter().map(|p| p.contract_address.as_str()).collect();
    assert_eq!(names, vec!["p3", "p4"]);
    let last = account.all_plugins(Some("p4".to_string()), Some(2));
    assert_eq!(last.len(), 1);
    assert_eq!(last[0].contract_address, "p5");
}

#[test]
fn pagination_default_and_cap() {
    let mut account = Account::new("pm".to_string());
    for i in 0..40 {
        register(&mut account, &format!("plugin_{:02}", i), "approve").unwrap();
    }
    assert_eq!(account.all_plugins(None, None).len(), 10);
    assert_eq!(account.all_plugins(None, Some(100)).len(), 30);
    assert_eq!(account.all_plugins(None, Some(0)).len(), 0);
    let page = account.all_plugins(Some("plugin_38".to_string()), Some(5));
    assert_eq!(page.len(), 1);
    assert_eq!(page[0].contract_address, "plugin_39");
}
