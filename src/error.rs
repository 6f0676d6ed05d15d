//! The errors of the account, the plugin manager and the plugins.

use vstd::prelude::*;

verus! {

#[derive(Clone, Debug)]
pub enum ContractError {
    /// A failure reported by the host, passed on with its text.
    Std { msg: String },
    Unauthorized,
    AlreadyRegistered,
    NotFound,
    PluginDisabled,
    InvalidCodeIdentity,
    InvalidPluginAdmin,
    RecoveryAlreadyRegistered,
    RecoveryNotEnabled,
    NoStatusChange,
    StillEnabledByManager,
    AccountAlreadyRegister,
    AccountNotRegistered,
    OutOfRange,
    ReachTransactionSpendLimit { denom: String, limit: u128, spent_amount: u128 },
    ReachPeriodicSpendLimit {
        denom: String,
        limit: u128,
        begin_period: u64,
        periodic: u64,
        spent_amount: u128,
    },
    ZeroPeriod,
    PeriodTooLarge,
    BeginPeriodTooFar,
    /// A transfer-bearing message whose body or amounts could not be read.
    MalformedMessage,
    /// A total of transferred amounts that does not fit in 128 bits.
    AmountOverflow,
    /// A plugin's refusal of a transaction.
    Rejected { reason: String },
}

} // verus!
