//! The account's hook dispatch: which plugins are called before and after a
//! transaction, and which plugin authorizes a recovery.

use vstd::prelude::*;
use crate::account::{
    has_active_recovery, is_active_recovery, lemma_unique_address, Account, ExecuteMsg, Plugin,
    PluginCall, PluginMsg,
};
use crate::error::ContractError;
use crate::msg::{AuthzInfo, PluginStatus, PluginType};

verus! {

/// What the dispatcher learns from one contract-execute sub-message of a
/// transaction: the contract it calls and what its body decodes as.
#[derive(Clone, Debug)]
pub struct ContractCall {
    pub contract: String,
    /// The body read as one of the account's own execute messages.
    pub account_msg: Option<ExecuteMsg>,
    /// The body reads as a plugin hook message.
    pub plugin_msg: bool,
    /// The body reads as a recovery plugin hook message.
    pub recovery_plugin_msg: bool,
}

/// The sub-message `shape` is a call to the account `own` that registers
/// (when `with_register`), unregisters or updates the plugin at `a`.
pub open spec fn targets(
    shape: Option<ContractCall>,
    own: Seq<char>,
    a: Seq<char>,
    with_register: bool,
) -> bool {
    match shape {
        Some(c) => c.contract@ == own && match c.account_msg {
            Some(ExecuteMsg::RegisterPlugin { plugin_address, .. }) => with_register
                && plugin_address@ == a,
            Some(ExecuteMsg::UnregisterPlugin { plugin_address }) => plugin_address@ == a,
            Some(ExecuteMsg::UpdatePlugin { plugin_address, .. }) => plugin_address@ == a,
            None => false,
        },
        None => false,
    }
}

/// Some sub-message of the transaction reconfigures the plugin at `a`, which
/// therefore takes no part in the transaction's hooks.
pub open spec fn held_back(
    shapes: Seq<Option<ContractCall>>,
    own: Seq<char>,
    a: Seq<char>,
    with_register: bool,
) -> bool {
    exists|i: int| 0 <= i < shapes.len() && targets(#[trigger] shapes[i], own, a, with_register)
}

/// The plugin `p` is called by the transaction's hooks.
pub open spec fn hooked(
    p: Plugin,
    shapes: Seq<Option<ContractCall>>,
    own: Seq<char>,
    with_register: bool,
) -> bool {
    &&& p.status == PluginStatus::Active
    &&& p.plugin_type != PluginType::Recovery
    &&& !held_back(shapes, own, p.contract_address@, with_register)
}

/// The plugins called by the transaction's hooks, in registry order.
pub open spec fn hooked_plugins(
    ps: Seq<Plugin>,
    shapes: Seq<Option<ContractCall>>,
    own: Seq<char>,
    with_register: bool,
) -> Seq<Plugin>
    decreases ps.len(),
{
    if ps.len() == 0 {
        Seq::empty()
    } else {
        let rest = hooked_plugins(ps.drop_last(), shapes, own, with_register);
        if hooked(ps.last(), shapes, own, with_register) {
            rest.push(ps.last())
        } else {
            rest
        }
    }
}

/// `c` calls plugin `p` with `msg` and no funds.
pub open spec fn is_hook_call(c: PluginCall, p: Plugin, msg: PluginMsg) -> bool {
    &&& c.contract_addr == p.contract_address
    &&& c.msg == msg
    &&& c.funds@.len() == 0
}

/// `calls` call the plugins `ps` one by one with `msg`.
pub open spec fn hook_calls(calls: Seq<PluginCall>, ps: Seq<Plugin>, msg: PluginMsg) -> bool {
    &&& calls.len() == ps.len()
    &&& forall|i: int| 0 <= i < ps.len() ==> is_hook_call(#[trigger] calls[i], ps[i], msg)
}

/// The plugin at `a` is registered with type `t`.
pub open spec fn registered_as(ps: Seq<Plugin>, a: Seq<char>, t: PluginType) -> bool {
    exists|i: int|
        0 <= i < ps.len() && (#[trigger] ps[i]).contract_address@ == a && ps[i].plugin_type == t
}

/// The sub-message `shape` may not appear in a transaction of the account
/// `own`: it calls a registered plugin's hooks directly, or it reconfigures
/// the account on behalf of a grantee.
pub open spec fn forbidden(
    shape: Option<ContractCall>,
    ps: Seq<Plugin>,
    own: Seq<char>,
    authz: bool,
) -> bool {
    match shape {
        Some(c) => {
            ||| registered_as(ps, c.contract@, PluginType::Recovery) && c.recovery_plugin_msg
            ||| registered_as(ps, c.contract@, PluginType::Other) && c.plugin_msg
            ||| c.contract@ == own && authz
        },
        None => false,
    }
}

/// Whether some sub-message reconfigures the plugin at `a`.
fn is_held_back(
    shapes: &Vec<Option<ContractCall>>,
    own: &String,
    a: &String,
    with_register: bool,
) -> (r: bool)
    ensures
        r == held_back(shapes@, own@, a@, with_register),
{
    let mut i: usize = 0;
    while i < shapes.len()
        invariant
            i <= shapes@.len(),
            forall|j: int| 0 <= j < i ==> !targets(#[trigger] shapes@[j], own@, a@, with_register),
        decreases shapes@.len() - i,
    {
        if let Some(c) = &shapes[i] {
            if c.contract == *own {
                let hit = match &c.account_msg {
                    Some(ExecuteMsg::RegisterPlugin { plugin_address, .. }) => with_register
                        && *plugin_address == *a,
                    Some(ExecuteMsg::UnregisterPlugin { plugin_address }) => *plugin_address == *a,
                    Some(ExecuteMsg::UpdatePlugin { plugin_address, .. }) => *plugin_address == *a,
                    None => false,
                };
                if hit {
                    return true;
                }
            }
        }
        i = i + 1;
    }
    false
}

impl Account {
    /// The calls of one hook to every plugin it reaches.
    fn hook_fan_out(
        &self,
        own_address: &String,
        shapes: &Vec<Option<ContractCall>>,
        with_register: bool,
        msg: PluginMsg,
    ) -> (r: Vec<PluginCall>)
        requires
            msg == PluginMsg::PreExecute || msg == PluginMsg::AfterExecute,
        ensures
            hook_calls(r@, hooked_plugins(self.plugins@, shapes@, own_address@, with_register), msg),
    {
        let mut calls: Vec<PluginCall> = Vec::new();
        let mut i: usize = 0;
        while i < self.plugins.len()
            invariant
                msg == PluginMsg::PreExecute || msg == PluginMsg::AfterExecute,
                i <= self.plugins@.len(),
                hook_calls(
                    calls@,
                    hooked_plugins(self.plugins@.take(i as int), shapes@, own_address@, with_register),
                    msg,
                ),
            decreases self.plugins@.len() - i,
        {
            let p = &self.plugins[i];
            let ghost before = hooked_plugins(
                self.plugins@.take(i as int),
                shapes@,
                own_address@,
                with_register,
            );
            assert(self.plugins@.take(i + 1).drop_last() =~= self.plugins@.take(i as int));
            if p.status == PluginStatus::Active && p.plugin_type != PluginType::Recovery
                && !is_held_back(shapes, own_address, &p.contract_address, with_register) {
                let m = match msg {
                    PluginMsg::PreExecute => PluginMsg::PreExecute,
                    _ => PluginMsg::AfterExecute,
                };
                calls.push(
                    PluginCall { contract_addr: p.contract_address.clone(), msg: m, funds: Vec::new() },
                );
            }
            i = i + 1;
        }
        assert(self.plugins@.take(i as int) =~= self.plugins@);
        calls
    }

    /// The calls made before the transaction's messages run: each active,
    /// non-recovery plugin that no sub-message unregisters or updates is asked
    /// to approve the transaction, in ascending address order.
    pub fn pre_execute(&self, own_address: &String, shapes: &Vec<Option<ContractCall>>) -> (r: Vec<
        PluginCall,
    >)
        ensures
            hook_calls(
                r@,
                hooked_plugins(self.plugins@, shapes@, own_address@, false),
                PluginMsg::PreExecute,
            ),
    {
        self.hook_fan_out(own_address, shapes, false, PluginMsg::PreExecute)
    }

    /// Whether the plugin at `a` is registered with type `t`.
    fn is_registered_as(&self, a: &String, t: PluginType) -> (r: bool)
        requires
            self.wf(),
        ensures
            r == registered_as(self.plugins@, a@, t),
    {
        match self.find(a) {
            None => false,
            Some(i) => {
                proof {
                    if registered_as(self.plugins@, a@, t) {
                        let j = choose|j: int|
                            0 <= j < self.plugins@.len() && (#[trigger] self.plugins@[j]).contract_address@
                                == a@ && self.plugins@[j].plugin_type == t;
                        lemma_unique_address(self.plugins@, i as int, j);
                    }
                }
                self.plugins[i].plugin_type == t
            },
        }
    }

    /// The calls made after the transaction's messages ran: as before them,
    /// but a plugin registered by the transaction is left out too. A
    /// transaction that calls a registered plugin's hooks directly, or that
    /// reconfigures the account on behalf of a grantee, is refused.
    pub fn after_execute(
        &self,
        own_address: &String,
        shapes: &Vec<Option<ContractCall>>,
        authz_info: &AuthzInfo,
    ) -> (r: Result<Vec<PluginCall>, ContractError>)
        requires
            self.wf(),
        ensures
            r is Err <==> exists|i: int|
                0 <= i < shapes@.len() && forbidden(
                    #[trigger] shapes@[i],
                    self.plugins@,
                    own_address@,
                    authz_info.spec_is_authz(),
                ),
            r matches Err(e) ==> e == ContractError::Unauthorized,
            r matches Ok(calls) ==> hook_calls(
                calls@,
                hooked_plugins(self.plugins@, shapes@, own_address@, true),
                PluginMsg::AfterExecute,
            ),
    {
        let authz = authz_info.is_authz();
        let mut i: usize = 0;
        while i < shapes.len()
            invariant
                self.wf(),
                authz == authz_info.spec_is_authz(),
                i <= shapes@.len(),
                forall|j: int|
                    0 <= j < i ==> !forbidden(#[trigger] shapes@[j], self.plugins@, own_address@, authz),
            decreases shapes@.len() - i,
        {
            if let Some(c) = &shapes[i] {
                if (c.recovery_plugin_msg && self.is_registered_as(&c.contract, PluginType::Recovery))
                    || (c.plugin_msg && self.is_registered_as(&c.contract, PluginType::Other)) || (
                authz && c.contract == *own_address) {
                    assert(forbidden(shapes@[i as int], self.plugins@, own_address@, authz));
                    return Err(ContractError::Unauthorized);
                }
            }
            i = i + 1;
        }
        Ok(self.hook_fan_out(own_address, shapes, true, PluginMsg::AfterExecute))
    }

    /// Asks the account's active recovery plugin to authorize a recovery by
    /// `caller`; refused when the account is not recoverable.
    pub fn recover(&self, caller: String, pub_key: Vec<u8>, credentials: Vec<u8>) -> (r: Result<
        PluginCall,
        ContractError,
    >)
        requires
            self.wf(),
        ensures
            r is Ok <==> self.config.recoverable,
            r matches Err(e) ==> e == ContractError::RecoveryNotEnabled,
            r matches Ok(c) ==> exists|i: int|
                0 <= i < self.plugins@.len() && is_active_recovery(#[trigger] self.plugins@[i])
                    && c.contract_addr == self.plugins@[i].contract_address && c.msg == (
                PluginMsg::Recover { caller, pub_key, credentials }) && c.funds@.len() == 0,
    {
        if !self.config.recoverable {
            return Err(ContractError::RecoveryNotEnabled);
        }
        let mut i: usize = 0;
        while i < self.plugins.len()
            invariant
                self.wf(),
                self.config.recoverable,
                i <= self.plugins@.len(),
                forall|j: int| 0 <= j < i ==> !is_active_recovery(#[trigger] self.plugins@[j]),
            decreases self.plugins@.len() - i,
        {
            let p = &self.plugins[i];
            if p.plugin_type == PluginType::Recovery && p.status == PluginStatus::Active {
                return Ok(
                    PluginCall {
                        contract_addr: p.contract_address.clone(),
                        msg: PluginMsg::Recover { caller, pub_key, credentials },
                        funds: Vec::new(),
                    },
                );
            }
            i = i + 1;
        }
        proof {
            assert(has_active_recovery(self.plugins@));
            let w = choose|w: int|
                0 <= w < self.plugins@.len() && is_active_recovery(#[trigger] self.plugins@[w]);
            assert(!is_active_recovery(self.plugins@[w]));
        }
        Err(ContractError::RecoveryNotEnabled)
    }
}

/// How many of `ps` have address `a`.
pub open spec fn count_address(ps: Seq<Plugin>, a: Seq<char>) -> nat
    decreases ps.len(),
{
    if ps.len() == 0 {
        0
    } else {
        count_address(ps.drop_last(), a) + if ps.last().contract_address@ == a {
            1nat
        } else {
            0nat
        }
    }
}

/// Every plugin the hooks call is hooked, and is one of the records.
pub proof fn lemma_hooked_plugins(
    ps: Seq<Plugin>,
    shapes: Seq<Option<ContractCall>>,
    own: Seq<char>,
    with_register: bool,
)
    ensures
        forall|k: int|
            0 <= k < hooked_plugins(ps, shapes, own, with_register).len() ==> hooked(
                #[trigger] hooked_plugins(ps, shapes, own, with_register)[k],
                shapes,
                own,
                with_register,
            ),
    decreases ps.len(),
{
    if ps.len() > 0 {
        lemma_hooked_plugins(ps.drop_last(), shapes, own, with_register);
        let rest = hooked_plugins(ps.drop_last(), shapes, own, with_register);
        let all = hooked_plugins(ps, shapes, own, with_register);
        assert forall|k: int| 0 <= k < all.len() implies hooked(
            #[trigger] all[k],
            shapes,
            own,
            with_register,
        ) by {
            if k < rest.len() {
                assert(all[k] == rest[k]);
            }
        }
    }
}

/// Counting the calls to one address among the hooked plugins of a prefix of
/// sorted records: one when the prefix holds that address's record and it is
/// hooked, none otherwise.
proof fn lemma_count_prefix(
    ps: Seq<Plugin>,
    shapes: Seq<Option<ContractCall>>,
    own: Seq<char>,
    idx: int,
    n: int,
)
    requires
        crate::account::sorted(ps),
        0 <= idx < ps.len(),
        0 <= n <= ps.len(),
        hooked(ps[idx], shapes, own, false),
    ensures
        count_address(hooked_plugins(ps.take(n), shapes, own, false), ps[idx].contract_address@) == if idx
            < n {
            1nat
        } else {
            0nat
        },
    decreases n,
{
    let a = ps[idx].contract_address@;
    if n > 0 {
        let t = ps.take(n);
        assert(t.drop_last() =~= ps.take(n - 1));
        lemma_count_prefix(ps, shapes, own, idx, n - 1);
        let rest = hooked_plugins(ps.take(n - 1), shapes, own, false);
        if t.last().contract_address@ == a {
            lemma_unique_address(ps, n - 1, idx);
        }
        if hooked(t.last(), shapes, own, false) {
            assert(rest.push(t.last()).drop_last() =~= rest);
        }
    } else {
        assert(ps.take(0) =~= Seq::<Plugin>::empty());
    }
}

/// Before a transaction that does not reconfigure it, every active,
/// non-recovery plugin is called exactly once.
pub proof fn lemma_guard_called_once(
    account: Account,
    own: Seq<char>,
    shapes: Seq<Option<ContractCall>>,
    idx: int,
)
    requires
        account.wf(),
        0 <= idx < account.plugins@.len(),
        account.plugins@[idx].status == PluginStatus::Active,
        account.plugins@[idx].plugin_type == PluginType::Other,
        forall|i: int|
            0 <= i < shapes.len() ==> !targets(
                #[trigger] shapes[i],
                own,
                account.plugins@[idx].contract_address@,
                false,
            ),
    ensures
        count_address(
            hooked_plugins(account.plugins@, shapes, own, false),
            account.plugins@[idx].contract_address@,
        ) == 1,
{
    let ps = account.plugins@;
    lemma_count_prefix(ps, shapes, own, idx, ps.len() as int);
    assert(ps.take(ps.len() as int) =~= ps);
}

/// A transaction that unregisters the plugin at `a` through the account
/// itself does not have that plugin's pre-execute hook called, even while the
/// plugin is active.
pub proof fn lemma_unregistering_plugin_not_called(
    ps: Seq<Plugin>,
    own: String,
    shapes: Seq<Option<ContractCall>>,
    i: int,
    a: String,
)
    requires
        0 <= i < shapes.len(),
        shapes[i] matches Some(c) && c.contract@ == own@ && c.account_msg == Some(
            ExecuteMsg::UnregisterPlugin { plugin_address: a },
        ),
    ensures
        forall|k: int|
            0 <= k < hooked_plugins(ps, shapes, own@, false).len() ==> (#[trigger] hooked_plugins(
                ps,
                shapes,
                own@,
                false,
            )[k]).contract_address@ != a@,
{
    lemma_hooked_plugins(ps, shapes, own@, false);
    assert(targets(shapes[i], own@, a@, false));
}

} // verus!
