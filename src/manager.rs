//! The plugin manager's allow-list rules: what it records about a plugin,
//! what it answers about it, and when it accepts a plugin contract.

use vstd::prelude::*;
use crate::error::ContractError;
use crate::msg::{PluginResponse, PluginStatus, PluginType, UnregisterRequirement};

verus! {

/// The manager's record of one allowed plugin.
#[derive(Clone, Debug)]
pub struct Plugin {
    pub name: String,
    pub plugin_type: PluginType,
    pub code_id: u64,
    pub version: String,
    pub address: String,
    pub enabled: bool,
}

/// The manager's answer about the plugin it recorded as `p`.
pub fn plugin_response(p: Plugin) -> (r: PluginResponse)
    ensures
        r.name == p.name,
        r.plugin_type == p.plugin_type,
        r.version == p.version,
        r.address == p.address,
        r.code_id == p.code_id,
        r.spec_enabled() == p.enabled,
        r.unregister_req == UnregisterRequirement::NotRequired,
{
    PluginResponse {
        name: p.name,
        plugin_type: p.plugin_type,
        version: p.version,
        address: p.address,
        code_id: p.code_id,
        status: if p.enabled {
            PluginStatus::Active
        } else {
            PluginStatus::Inactive
        },
        unregister_req: UnregisterRequirement::NotRequired,
    }
}

/// A contract's admin as text: empty when it has none.
pub open spec fn admin_text(admin: Option<String>) -> Seq<char> {
    match admin {
        Some(a) => a@,
        None => Seq::empty(),
    }
}

/// Checks a plugin record against the contract deployed at its address, whose
/// code id is `contract_code_id` and whose admin is `contract_admin`: the code
/// must be the one recorded, and the manager (`manager_address`) must be the
/// contract's admin, so that the contract cannot be swapped behind its back.
pub fn validate_plugin(
    plugin: &Plugin,
    contract_code_id: u64,
    contract_admin: &Option<String>,
    manager_address: &String,
) -> (r: Result<(), ContractError>)
    ensures
        contract_code_id != plugin.code_id ==> r == Err::<(), _>(ContractError::InvalidCodeIdentity),
        contract_code_id == plugin.code_id ==> (r is Ok <==> admin_text(*contract_admin)
            == manager_address@),
        r matches Err(e) ==> contract_code_id == plugin.code_id ==> e
            == ContractError::InvalidPluginAdmin,
{
    if contract_code_id != plugin.code_id {
        return Err(ContractError::InvalidCodeIdentity);
    }
    let admin_is_manager = match contract_admin {
        Some(a) => *a == *manager_address,
        None => {
            let empty = manager_address.as_str().unicode_len() == 0;
            assert(empty ==> manager_address@ =~= Seq::<char>::empty());
            empty
        },
    };
    if !admin_is_manager {
        return Err(ContractError::InvalidPluginAdmin);
    }
    Ok(())
}

} // verus!
