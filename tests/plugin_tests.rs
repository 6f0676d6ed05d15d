use pyxis_sm::error::ContractError;
use pyxis_sm::manager::{plugin_response, validate_plugin, Plugin};
use pyxis_sm::msg::{PluginStatus, PluginType};
use pyxis_sm::plugins::{
    recovery_recover, recovery_register, recovery_unregister, sample_register, sample_verdict,
    RecoveryConfig, UserConfig,
};

fn manager_record(enabled: bool) -> Plugin {
    Plugin {
        name: "spend".into(),
        plugin_type: PluginType::Other,
        code_id: 4,
        version: "v0.1.0".into(),
        address: "plugin_1".into(),
        enabled,
    }
}

#[test]
fn manager_answers_with_its_record() {
    let r = plugin_response(manager_record(true));
    assert_eq!(r.address, "plugin_1");
    assert_eq!(r.code_id, 4);
    assert!(r.enabled());
    assert_eq!(r.status, PluginStatus::Active);
    assert!(!plugin_response(manager_record(false)).enabled());
}

#[test]
fn manager_validates_code_and_admin() {
    let p = manager_record(true);
    let manager = "manager".to_string();
    assert!(validate_plugin(&p, 4, &Some("manager".into()), &manager).is_ok());
    assert!(matches!(validate_plugin(&p, 5, &Some("manager".into()), &manager), Err(ContractError::InvalidCodeIdentity)));
    assert!(matches!(validate_plugin(&p, 4, &Some("someone".into()), &manager), Err(ContractError::InvalidPluginAdmin)));
    assert!(matches!(validate_plugin(&p, 4, &None, &manager), Err(ContractError::InvalidPluginAdmin)));
}

#[test]
fn recovery_plugin_rules() {
    let config = RecoveryConfig { smart_account_address: "acct".into(), recover_address: "recoverer".into() };
    assert!(matches!(recovery_register(&"other".to_string(), config.clone()), Err(ContractError::Unauthorized)));
    let stored = Some(recovery_register(&"acct".to_string(), config).unwrap());
    assert!(recovery_recover(&stored, &"recoverer".to_string()).is_ok());
    assert!(recovery_recover(&stored, &"recoverer".to_string()).is_ok());
    assert!(matches!(recovery_recover(&stored, &"mallory".to_string()), Err(ContractError::Unauthorized)));
    assert!(matches!(recovery_recover(&None, &"recoverer".to_string()), Err(ContractError::NotFound)));
    assert!(recovery_unregister(&stored).is_ok());
    assert!(matches!(recovery_unregister(&None), Err(ContractError::NotFound)));
}

#[test]
fn sample_plugin_rules() {
    assert!(sample_verdict(&"approve".to_string()).is_ok());
    assert!(matches!(sample_verdict(&"reject".to_string()), Err(ContractError::Rejected { ref reason }) if reason == "reject"));
    assert!(matches!(sample_verdict(&"maybe".to_string()), Err(ContractError::Rejected { ref reason }) if reason == "config error"));
    let first = sample_register(None, "acct".into(), "approve".into());
    assert_eq!(first.address, "acct");
    let again = sample_register(Some(UserConfig { address: "acct".into(), config: "approve".into() }), "acct".into(), "reject".into());
    assert_eq!(again.config, "reject");
    assert_eq!(again.address, "acct");
}

#[test]
fn call_info_default_is_empty() {
    let c = pyxis_sm::msg::CallInfo::default();
    assert!(c.fee.is_empty());
    assert_eq!(c.gas, 0);
    assert_eq!(c.fee_payer, "");
    assert_eq!(c.fee_granter, "");
}
