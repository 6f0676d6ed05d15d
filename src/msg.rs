//! Message and response types shared by the account, its plugins and the
//! plugin manager.

use vstd::prelude::*;

verus! {

/// An amount of one denomination.
#[derive(Clone, Debug)]
pub struct Coin {
    pub denom: String,
    pub amount: u128,
}

/// A coin as a pair of its denomination and amount.
pub type CoinModel = (Seq<char>, u128);

pub open spec fn coins_model(v: Seq<Coin>) -> Seq<CoinModel> {
    v.map_values(|c: Coin| (c.denom@, c.amount))
}

/// Per-transaction context handed to plugins: the fee and who pays it.
#[derive(Clone, Debug)]
pub struct CallInfo {
    pub fee: Vec<Coin>,
    pub gas: u64,
    pub fee_payer: String,
    pub fee_granter: String,
}

impl Default for CallInfo {
    /// No fee, no gas, no payer and no granter.
    fn default() -> (r: CallInfo)
        ensures
            r.fee@.len() == 0,
            r.gas == 0,
            r.fee_payer@.len() == 0,
            r.fee_granter@.len() == 0,
    {
        CallInfo { fee: Vec::new(), gas: 0, fee_payer: String::new(), fee_granter: String::new() }
    }
}

/// One encoded sub-message of a transaction: its type URL and its protobuf bytes.
#[derive(Clone, Debug)]
pub struct SdkMsg {
    pub type_url: String,
    pub value: Vec<u8>,
}

/// Who, if anyone, executes the transaction on the account's behalf.
#[derive(Clone, Debug)]
pub struct AuthzInfo {
    pub grantee: String,
}

impl AuthzInfo {
    /// The transaction is executed by a grantee rather than by the account itself.
    pub open spec fn spec_is_authz(&self) -> bool {
        self.grantee@.len() != 0
    }

    pub fn is_authz(&self) -> (r: bool)
        ensures
            r == self.spec_is_authz(),
    {
        self.grantee.as_str().unicode_len() != 0
    }
}

/// The kind of a plugin: recovery plugins authorize owner recovery, the others
/// guard ordinary transactions.
#[derive(Clone, Copy, Debug, PartialEq, Eq, Structural)]
pub enum PluginType {
    Recovery,
    Other,
}

/// Whether a plugin takes part in dispatch.
#[derive(Clone, Copy, Debug, PartialEq, Eq, Structural)]
pub enum PluginStatus {
    Active,
    Inactive,
}

/// Whether a plugin must be notified when it is unregistered.
#[derive(Clone, Copy, Debug, PartialEq, Eq, Structural)]
pub enum UnregisterRequirement {
    Required,
    NotRequired,
}

/// What the plugin manager vouches for about one plugin.
#[derive(Clone, Debug)]
pub struct PluginResponse {
    pub name: String,
    pub plugin_type: PluginType,
    pub version: String,
    pub address: String,
    pub code_id: u64,
    pub status: PluginStatus,
    pub unregister_req: UnregisterRequirement,
}

impl PluginResponse {
    /// The manager currently allows the plugin.
    pub open spec fn spec_enabled(&self) -> bool {
        self.status == PluginStatus::Active
    }

    pub fn enabled(&self) -> (r: bool)
        ensures
            r == self.spec_enabled(),
    {
        self.status == PluginStatus::Active
    }
}

/// The status of one plugin address, as reported by the plugin manager.
#[derive(Clone, Debug)]
pub struct QueryPluginStatus {
    pub address: String,
    pub status: PluginStatus,
}

/// The statuses of several plugin addresses.
#[derive(Clone, Debug)]
pub struct QueryPluginsStatusResponse {
    pub plugins_status: Vec<QueryPluginStatus>,
}

/// A page of the plugin manager's allow-list.
#[derive(Clone, Debug)]
pub struct AllPluginsResponse {
    pub plugins: Vec<PluginResponse>,
}

/// Migration message of every contract here: a migration takes no parameters.
#[derive(Clone, Copy, Debug)]
pub struct MigrateMsg {}

} // verus!

verus! {

/// The hooks a plugin exposes to the account that registered it.
#[derive(Clone, Debug)]
pub enum PyxisPluginExecuteMsg {
    /// Register a plugin to this smart account, the caller must be the smart account itself
    Register { config: String },
    /// Unregister a plugin from this smart account, the caller must be the smart account itself
    Unregister {},
    /// Called before a transaction is executed
    PreExecute { msgs: Vec<SdkMsg>, call_info: CallInfo, authz_info: AuthzInfo },
    /// Called at the end of a transaction
    AfterExecute { msgs: Vec<SdkMsg>, call_info: CallInfo, authz_info: AuthzInfo },
}

/// The hooks a recovery plugin exposes to the account that registered it.
#[derive(Clone, Debug)]
pub enum PyxisRecoveryPluginExecuteMsg {
    Register { config: String },
    Unregister {},
    Recover { caller: String, pub_key: Vec<u8>, credentials: Vec<u8> },
}

/// The privileged entry points the host calls on the account.
#[derive(Clone, Debug)]
pub enum PyxisSudoMsg {
    PreExecute { msgs: Vec<SdkMsg>, call_info: CallInfo, authz_info: AuthzInfo },
    AfterExecute { msgs: Vec<SdkMsg>, call_info: CallInfo, authz_info: AuthzInfo },
    Recover { caller: String, pub_key: Vec<u8>, credentials: Vec<u8> },
}

} // verus!
