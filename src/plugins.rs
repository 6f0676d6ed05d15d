//! The decisions of the bundled plugins: the recovery plugin, which lets one
//! recoverer address recover an account, and the sample plugin, which approves
//! or rejects every transaction as its configuration says.

use vstd::prelude::*;
use crate::error::ContractError;

verus! {

/// A recovery plugin's configuration for one account.
#[derive(Clone, Debug)]
pub struct RecoveryConfig {
    pub smart_account_address: String,
    pub recover_address: String,
}

/// Registration of `config` by the account `sender`: accepted only when the
/// configuration names the sender as its account.
pub fn recovery_register(sender: &String, config: RecoveryConfig) -> (r: Result<
    RecoveryConfig,
    ContractError,
>)
    ensures
        sender@ != config.smart_account_address@ ==> r == Err::<RecoveryConfig, _>(
            ContractError::Unauthorized,
        ),
        sender@ == config.smart_account_address@ ==> r == Ok::<_, ContractError>(config),
{
    if *sender != config.smart_account_address {
        return Err(ContractError::Unauthorized);
    }
    Ok(config)
}

/// Unregistration of an account whose stored configuration is `stored`.
pub fn recovery_unregister(stored: &Option<RecoveryConfig>) -> (r: Result<(), ContractError>)
    ensures
        stored is None ==> r == Err::<(), _>(ContractError::NotFound),
        stored is Some ==> r is Ok,
{
    match stored {
        None => Err(ContractError::NotFound),
        Some(_) => Ok(()),
    }
}

/// The recovery plugin's verdict on a recovery of an account whose stored
/// configuration is `stored`, asked for by `caller`.
pub open spec fn recovery_verdict(stored: Option<RecoveryConfig>, caller: Seq<char>) -> Result<
    (),
    ContractError,
> {
    match stored {
        None => Err(ContractError::NotFound),
        Some(c) => if caller == c.recover_address@ {
            Ok(())
        } else {
            Err(ContractError::Unauthorized)
        },
    }
}

/// Checks a recovery asked for by `caller`; the stored configuration is only
/// read, so the same request gets the same verdict every time.
pub fn recovery_recover(stored: &Option<RecoveryConfig>, caller: &String) -> (r: Result<
    (),
    ContractError,
>)
    ensures
        r == recovery_verdict(*stored, caller@),
{
    match stored {
        None => Err(ContractError::NotFound),
        Some(c) => if *caller == c.recover_address {
            Ok(())
        } else {
            Err(ContractError::Unauthorized)
        },
    }
}

/// A registered account is recovered by its recoverer address and by no
/// other caller; since a recovery changes nothing the plugin stores, a
/// recovery by the recoverer succeeds each time it is asked for.
pub proof fn lemma_recovery_by_recoverer_only(config: RecoveryConfig, caller: Seq<char>)
    ensures
        recovery_verdict(Some(config), caller) is Ok <==> caller == config.recover_address@,
        caller != config.recover_address@ ==> recovery_verdict(Some(config), caller) == Err::<(), _>(
            ContractError::Unauthorized,
        ),
        recovery_verdict(Some(config), config.recover_address@) == Ok::<(), ContractError>(()),
{
}

/// The sample plugin's record of one account.
#[derive(Clone, Debug)]
pub struct UserConfig {
    pub address: String,
    pub config: String,
}

/// The sample plugin's record after `sender` registers with `config`: the
/// configuration is replaced when the account is already known.
pub fn sample_register(stored: Option<UserConfig>, sender: String, config: String) -> (r: UserConfig)
    ensures
        r.config == config,
        stored matches Some(u) ==> r.address == u.address,
        stored is None ==> r.address == sender,
{
    match stored {
        Some(u) => UserConfig { address: u.address, config },
        None => UserConfig { address: sender, config },
    }
}

/// The sample plugin's verdict on a transaction of an account configured
/// with `config`: `approve` approves, `reject` rejects, anything else is a
/// configuration error.
pub fn sample_verdict(config: &String) -> (r: Result<(), ContractError>)
    ensures
        r is Ok <==> config@ == "approve"@,
        config@ == "reject"@ ==> (r matches Err(ContractError::Rejected { reason }) && reason@
            == "reject"@),
        config@ != "approve"@ && config@ != "reject"@ ==> (r matches Err(
            ContractError::Rejected { reason },
        ) && reason@ == "config error"@),
{
    proof {
        reveal_strlit("approve");
        reveal_strlit("reject");
        assert("approve"@[0] != "reject"@[0]);
    }
    if text_eq(config, "approve") {
        Ok(())
    } else if text_eq(config, "reject") {
        Err(ContractError::Rejected { reason: String::from_str("reject") })
    } else {
        Err(ContractError::Rejected { reason: String::from_str("config error") })
    }
}

/// Whether `s` reads `lit`.
fn text_eq(s: &String, lit: &str) -> (r: bool)
    ensures
        r == (s@ == lit@),
{
    crate::tracked_msgs::text_is(s, lit)
}

} // verus!
