//! The smart account's plugin registry: one record per plugin address, kept in
//! ascending address order, with at most one recovery plugin, and the
//! `recoverable` flag telling whether an active recovery plugin is registered.

use vstd::prelude::*;
use crate::addr::{addr_less, addr_lt, lemma_addr_lt_total, lemma_addr_lt_transitive, lemma_addr_lt_irreflexive};
use crate::error::ContractError;
use crate::msg::{Coin, PluginResponse, PluginStatus, PluginType};

verus! {

/// The account's settings.
#[derive(Clone, Debug)]
pub struct Config {
    pub plugin_manager_addr: String,
    pub recoverable: bool,
}

/// One registered plugin.
#[derive(Clone, Debug)]
pub struct Plugin {
    pub name: String,
    pub plugin_type: PluginType,
    pub contract_address: String,
    pub status: PluginStatus,
    pub config: String,
}

/// Parameters of the account's instantiation.
#[derive(Clone, Debug)]
pub struct InstantiateMsg {
    pub plugin_manager_addr: String,
}

/// The account's own execute messages: its registry management.
#[derive(Clone, Debug)]
pub enum ExecuteMsg {
    RegisterPlugin { plugin_address: String, config: String },
    UnregisterPlugin { plugin_address: String },
    UpdatePlugin { plugin_address: String, status: PluginStatus },
}

/// The account's queries.
#[derive(Clone, Debug)]
pub enum QueryMsg {
    AllPlugins { start_after: Option<String>, limit: Option<u32> },
}

/// A page of registered plugins.
#[derive(Clone, Debug)]
pub struct AllPluginsResponse {
    pub plugins: Vec<Plugin>,
}

/// What a call to a plugin asks of it.
#[derive(Clone, Debug)]
pub enum PluginMsg {
    Register { config: String },
    Unregister,
    /// The pre-execute hook, carrying the transaction's messages, call
    /// information and authorization information unchanged.
    PreExecute,
    /// The after-execute hook, carrying the same payload as `PreExecute`.
    AfterExecute,
    Recover { caller: String, pub_key: Vec<u8>, credentials: Vec<u8> },
}

/// A call the host is asked to make, in order, after the account's own call.
#[derive(Clone, Debug)]
pub struct PluginCall {
    pub contract_addr: String,
    pub msg: PluginMsg,
    pub funds: Vec<Coin>,
}

/// The account's persistent state: its settings and its plugin records.
#[derive(Clone, Debug)]
pub struct Account {
    pub config: Config,
    pub plugins: Vec<Plugin>,
}

/// Records are in strictly ascending address order (so addresses are unique).
pub open spec fn sorted(ps: Seq<Plugin>) -> bool {
    forall|i: int, j: int|
        0 <= i < j < ps.len() ==> addr_lt(
            #[trigger] ps[i].contract_address@,
            #[trigger] ps[j].contract_address@,
        )
}

pub open spec fn is_recovery(p: Plugin) -> bool {
    p.plugin_type == PluginType::Recovery
}

pub open spec fn is_active_recovery(p: Plugin) -> bool {
    p.plugin_type == PluginType::Recovery && p.status == PluginStatus::Active
}

/// Some record is of the recovery type.
pub open spec fn has_recovery(ps: Seq<Plugin>) -> bool {
    exists|i: int| 0 <= i < ps.len() && is_recovery(#[trigger] ps[i])
}

/// Some record is an active recovery plugin.
pub open spec fn has_active_recovery(ps: Seq<Plugin>) -> bool {
    exists|i: int| 0 <= i < ps.len() && is_active_recovery(#[trigger] ps[i])
}

/// At most one record is of the recovery type.
pub open spec fn single_recovery(ps: Seq<Plugin>) -> bool {
    forall|i: int, j: int|
        0 <= i < ps.len() && 0 <= j < ps.len() && is_recovery(#[trigger] ps[i]) && is_recovery(
            #[trigger] ps[j],
        ) ==> i == j
}

/// Some record has address `a`.
pub open spec fn registered(ps: Seq<Plugin>, a: Seq<char>) -> bool {
    exists|i: int| 0 <= i < ps.len() && (#[trigger] ps[i]).contract_address@ == a
}

/// The record that registration stores.
pub open spec fn new_record(addr: String, config: String, info: PluginResponse) -> Plugin {
    Plugin {
        name: info.name,
        plugin_type: info.plugin_type,
        contract_address: addr,
        status: PluginStatus::Active,
        config: config,
    }
}

/// Why registration fails, if it does, in the order the checks are made.
pub open spec fn register_error(
    ps: Seq<Plugin>,
    addr: Seq<char>,
    plugin_info: Result<PluginResponse, String>,
    code_id: Result<u64, String>,
) -> Option<ContractError> {
    if registered(ps, addr) {
        Some(ContractError::AlreadyRegistered)
    } else {
        match plugin_info {
            Err(m) => Some(ContractError::Std { msg: m }),
            Ok(info) => if !info.spec_enabled() {
                Some(ContractError::PluginDisabled)
            } else {
                match code_id {
                    Err(m) => Some(ContractError::Std { msg: m }),
                    Ok(c) => if c != info.code_id {
                        Some(ContractError::InvalidCodeIdentity)
                    } else if info.plugin_type == PluginType::Recovery && has_recovery(ps) {
                        Some(ContractError::RecoveryAlreadyRegistered)
                    } else {
                        None
                    },
                }
            },
        }
    }
}

/// The manager's answer says the plugin is enabled (an answer that failed says not).
pub open spec fn manager_enabled(plugin_info: Result<PluginResponse, String>) -> bool {
    match plugin_info {
        Ok(info) => info.spec_enabled(),
        Err(_) => false,
    }
}

impl Account {
    pub open spec fn wf(&self) -> bool {
        &&& sorted(self.plugins@)
        &&& single_recovery(self.plugins@)
        &&& self.config.recoverable == has_active_recovery(self.plugins@)
    }

    /// A fresh account that trusts the given plugin manager and has no plugin.
    pub fn new(plugin_manager_addr: String) -> (r: Account)
        ensures
            r.wf(),
            r.config.plugin_manager_addr == plugin_manager_addr,
            !r.config.recoverable,
            r.plugins@.len() == 0,
    {
        Account { config: Config { plugin_manager_addr, recoverable: false }, plugins: Vec::new() }
    }

    /// Whether the account satisfies its invariant (as a freshly loaded state
    /// must before any operation).
    pub fn is_well_formed(&self) -> (r: bool)
        ensures
            r == self.wf(),
    {
        let n = self.plugins.len();
        let mut i: usize = 0;
        while i + 1 < n
            invariant
                n == self.plugins@.len(),
                i < n || i == 0,
                forall|j: int|
                    0 <= j < i ==> addr_lt(
                        #[trigger] self.plugins@[j].contract_address@,
                        self.plugins@[j + 1].contract_address@,
                    ),
            decreases n - i,
        {
            if !addr_less(&self.plugins[i].contract_address, &self.plugins[i + 1].contract_address) {
                return false;
            }
            i = i + 1;
        }
        proof {
            lemma_sorted_from_adjacent(self.plugins@);
        }
        let mut first: Option<usize> = None;
        let mut active = false;
        let mut k: usize = 0;
        while k < n
            invariant
                n == self.plugins@.len(),
                k <= n,
                first is None ==> forall|j: int| 0 <= j < k ==> !is_recovery(#[trigger] self.plugins@[j]),
                first matches Some(f) ==> f < k && is_recovery(self.plugins@[f as int]) && forall|j: int|
                    0 <= j < k && j != f ==> !is_recovery(#[trigger] self.plugins@[j]),
                active == exists|j: int| 0 <= j < k && is_active_recovery(#[trigger] self.plugins@[j]),
            decreases n - k,
        {
            let p = &self.plugins[k];
            if p.plugin_type == PluginType::Recovery {
                if first.is_some() {
                    return false;
                }
                first = Some(k);
                if p.status == PluginStatus::Active {
                    active = true;
                }
            }
            proof {
                if active {
                    let w = choose|w: int| 0 <= w < k + 1 && is_active_recovery(#[trigger] self.plugins@[w]);
                    assert(0 <= w < k + 1 && is_active_recovery(self.plugins@[w]));
                }
            }
            k = k + 1;
        }
        self.config.recoverable == active
    }

    /// The position of the record with address `addr`, if there is one.
    pub fn find(&self, addr: &String) -> (r: Option<usize>)
        requires
            self.wf(),
        ensures
            r is None <==> !registered(self.plugins@, addr@),
            r matches Some(i) ==> i < self.plugins@.len() && self.plugins@[i as int].contract_address@
                == addr@,
    {
        let mut i: usize = 0;
        while i < self.plugins.len()
            invariant
                i <= self.plugins@.len(),
                forall|j: int| 0 <= j < i ==> (#[trigger] self.plugins@[j]).contract_address@ != addr@,
            decreases self.plugins@.len() - i,
        {
            if self.plugins[i].contract_address == *addr {
                return Some(i);
            }
            i = i + 1;
        }
        None
    }

    /// Where a record with the unregistered address `addr` belongs.
    fn insert_position(&self, addr: &String) -> (k: usize)
        requires
            self.wf(),
            !registered(self.plugins@, addr@),
        ensures
            k <= self.plugins@.len(),
            forall|j: int| 0 <= j < k ==> addr_lt(#[trigger] self.plugins@[j].contract_address@, addr@),
            forall|j: int|
                k <= j < self.plugins@.len() ==> addr_lt(addr@, #[trigger] self.plugins@[j].contract_address@),
    {
        let mut k: usize = 0;
        while k < self.plugins.len()
            invariant
                self.wf(),
                !registered(self.plugins@, addr@),
                k <= self.plugins@.len(),
                forall|j: int| 0 <= j < k ==> addr_lt(#[trigger] self.plugins@[j].contract_address@, addr@),
            decreases self.plugins@.len() - k,
        {
            if !addr_less(&self.plugins[k].contract_address, addr) {
                let ghost pk = self.plugins@[k as int].contract_address@;
                proof {
                    lemma_addr_lt_total(pk, addr@);
                    assert(self.plugins@[k as int].contract_address@ != addr@);
                    assert forall|j: int| k <= j < self.plugins@.len() implies addr_lt(
                        addr@,
                        #[trigger] self.plugins@[j].contract_address@,
                    ) by {
                        if j > k {
                            lemma_addr_lt_transitive(addr@, pk, self.plugins@[j].contract_address@);
                        }
                    }
                }
                return k;
            }
            k = k + 1;
        }
        k
    }

    /// Whether some record is of the recovery type.
    fn has_recovery_plugin(&self) -> (r: bool)
        ensures
            r == has_recovery(self.plugins@),
    {
        let mut i: usize = 0;
        while i < self.plugins.len()
            invariant
                i <= self.plugins@.len(),
                forall|j: int| 0 <= j < i ==> !is_recovery(#[trigger] self.plugins@[j]),
            decreases self.plugins@.len() - i,
        {
            if self.plugins[i].plugin_type == PluginType::Recovery {
                return true;
            }
            i = i + 1;
        }
        false
    }

    /// Registers the plugin at `plugin_address` with `config`, given the plugin
    /// manager's answer about it and the code id of the contract the manager
    /// names; on success the plugin is asked to register, with `funds`.
    pub fn register_plugin(
        &mut self,
        plugin_address: String,
        config: String,
        funds: Vec<Coin>,
        plugin_info: Result<PluginResponse, String>,
        code_id: Result<u64, String>,
    ) -> (r: Result<PluginCall, ContractError>)
        requires
            old(self).wf(),
        ensures
            final(self).wf(),
            r is Err <==> register_error(old(self).plugins@, plugin_address@, plugin_info, code_id) is Some,
            r matches Err(e) ==> e == register_error(
                old(self).plugins@,
                plugin_address@,
                plugin_info,
                code_id,
            )->0 && *final(self) == *old(self),
            r is Ok ==> {
                let info = plugin_info->Ok_0;
                &&& exists|k: int|
                    0 <= k <= old(self).plugins@.len() && final(self).plugins@ == old(
                        self,
                    ).plugins@.insert(k, new_record(plugin_address, config, info))
                &&& final(self).config.plugin_manager_addr == old(self).config.plugin_manager_addr
                &&& final(self).config.recoverable == (old(self).config.recoverable
                    || info.plugin_type == PluginType::Recovery)
                &&& r->Ok_0.contract_addr == plugin_address
                &&& r->Ok_0.msg == (PluginMsg::Register { config })
                &&& r->Ok_0.funds == funds
            },
    {
        if self.find(&plugin_address).is_some() {
            return Err(ContractError::AlreadyRegistered);
        }
        let info = match plugin_info {
            Err(m) => {
                return Err(ContractError::Std { msg: m });
            },
            Ok(info) => info,
        };
        if !info.enabled() {
            return Err(ContractError::PluginDisabled);
        }
        let code = match code_id {
            Err(m) => {
                return Err(ContractError::Std { msg: m });
            },
            Ok(c) => c,
        };
        if code != info.code_id {
            return Err(ContractError::InvalidCodeIdentity);
        }
        let plugin_type = info.plugin_type;
        if plugin_type == PluginType::Recovery && self.has_recovery_plugin() {
            return Err(ContractError::RecoveryAlreadyRegistered);
        }
        let k = self.insert_position(&plugin_address);
        let ghost old_ps = self.plugins@;
        let ghost info_g = info;
        let record = Plugin {
            name: info.name,
            plugin_type,
            contract_address: plugin_address.clone(),
            status: PluginStatus::Active,
            config: config.clone(),
        };
        assert(record == new_record(plugin_address, config, info_g));
        self.plugins.insert(k, record);
        if plugin_type == PluginType::Recovery {
            self.config.recoverable = true;
        }
        proof {
            let ps = self.plugins@;
            assert(ps == old_ps.insert(k as int, record));
            assert forall|i: int, j: int| 0 <= i < j < ps.len() implies addr_lt(
                #[trigger] ps[i].contract_address@,
                #[trigger] ps[j].contract_address@,
            ) by {
                if j < k {
                } else if j == k {
                } else if i < k {
                    lemma_addr_lt_transitive(
                        ps[i].contract_address@,
                        record.contract_address@,
                        ps[j].contract_address@,
                    );
                } else if i == k {
                } else {
                }
            }
            assert forall|i: int, j: int|
                0 <= i < ps.len() && 0 <= j < ps.len() && is_recovery(#[trigger] ps[i]) && is_recovery(
                    #[trigger] ps[j],
                ) implies i == j by {
                if plugin_type == PluginType::Recovery {
                    if i != k {
                        let oi = if i < k { i } else { i - 1 };
                        assert(old_ps[oi] == ps[i]);
                    }
                    if j != k {
                        let oj = if j < k { j } else { j - 1 };
                        assert(old_ps[oj] == ps[j]);
                    }
                } else {
                    let oi = if i < k { i } else { i - 1 };
                    let oj = if j < k { j } else { j - 1 };
                    assert(old_ps[oi] == ps[i]);
                    assert(old_ps[oj] == ps[j]);
                }
            }
            if plugin_type == PluginType::Recovery {
                assert(is_active_recovery(ps[k as int]));
            } else if has_active_recovery(old_ps) {
                let w = choose|w: int| 0 <= w < old_ps.len() && is_active_recovery(#[trigger] old_ps[w]);
                let nw = if w < k { w } else { w + 1 };
                assert(ps[nw] == old_ps[w]);
            } else {
                assert forall|i: int| 0 <= i < ps.len() implies !is_active_recovery(#[trigger] ps[i]) by {
                    if i != k {
                        let oi = if i < k { i } else { i - 1 };
                        assert(old_ps[oi] == ps[i]);
                    }
                }
            }
        }
        Ok(PluginCall { contract_addr: plugin_address, msg: PluginMsg::Register { config }, funds })
    }

    /// Unregisters the plugin at `plugin_address`. The record goes whatever the
    /// plugin manager says; the plugin is asked to unregister, with `funds`,
    /// only when the manager's answer says it is enabled.
    pub fn unregister_plugin(
        &mut self,
        plugin_address: String,
        funds: Vec<Coin>,
        plugin_info: Result<PluginResponse, String>,
    ) -> (r: Result<Option<PluginCall>, ContractError>)
        requires
            old(self).wf(),
        ensures
            final(self).wf(),
            r is Err <==> !registered(old(self).plugins@, plugin_address@),
            r matches Err(e) ==> e == ContractError::NotFound && *final(self) == *old(self),
            r is Ok ==> {
                let i = index_of(old(self).plugins@, plugin_address@);
                &&& 0 <= i < old(self).plugins@.len()
                &&& old(self).plugins@[i].contract_address@ == plugin_address@
                &&& final(self).plugins@ == old(self).plugins@.remove(i)
                &&& final(self).config.plugin_manager_addr == old(self).config.plugin_manager_addr
                &&& final(self).config.recoverable == (old(self).config.recoverable && !is_recovery(
                    old(self).plugins@[i],
                ))
                &&& (r->Ok_0 is Some <==> manager_enabled(plugin_info))
                &&& r->Ok_0 matches Some(c) ==> c.contract_addr == plugin_address && c.msg
                    == PluginMsg::Unregister && c.funds == funds
            },
    {
        let i = match self.find(&plugin_address) {
            None => {
                return Err(ContractError::NotFound);
            },
            Some(i) => i,
        };
        proof {
            lemma_index_of(self.plugins@, i as int);
        }
        let ghost old_ps = self.plugins@;
        let removed = self.plugins.remove(i);
        if removed.plugin_type == PluginType::Recovery {
            self.config.recoverable = false;
        }
        proof {
            let ps = self.plugins@;
            assert(ps == old_ps.remove(i as int));
            assert forall|a: int, b: int| 0 <= a < b < ps.len() implies addr_lt(
                #[trigger] ps[a].contract_address@,
                #[trigger] ps[b].contract_address@,
            ) by {
                let oa = if a < i { a } else { a + 1 };
                let ob = if b < i { b } else { b + 1 };
                assert(old_ps[oa] == ps[a] && old_ps[ob] == ps[b]);
            }
            assert forall|a: int, b: int|
                0 <= a < ps.len() && 0 <= b < ps.len() && is_recovery(#[trigger] ps[a]) && is_recovery(
                    #[trigger] ps[b],
                ) implies a == b by {
                let oa = if a < i { a } else { a + 1 };
                let ob = if b < i { b } else { b + 1 };
                assert(old_ps[oa] == ps[a] && old_ps[ob] == ps[b]);
            }
            if is_recovery(removed) {
                assert forall|a: int| 0 <= a < ps.len() implies !is_active_recovery(#[trigger] ps[a]) by {
                    let oa = if a < i { a } else { a + 1 };
                    assert(old_ps[oa] == ps[a]);
                    assert(is_recovery(old_ps[i as int]));
                }
            } else if has_active_recovery(old_ps) {
                let w = choose|w: int| 0 <= w < old_ps.len() && is_active_recovery(#[trigger] old_ps[w]);
                let nw = if w < i { w } else { w - 1 };
                assert(ps[nw] == old_ps[w]);
            } else {
                assert forall|a: int| 0 <= a < ps.len() implies !is_active_recovery(#[trigger] ps[a]) by {
                    let oa = if a < i { a } else { a + 1 };
                    assert(old_ps[oa] == ps[a]);
                }
            }
        }
        let enabled = match &plugin_info {
            Ok(info) => info.enabled(),
            Err(_) => false,
        };
        if enabled {
            Ok(Some(PluginCall { contract_addr: plugin_address, msg: PluginMsg::Unregister, funds }))
        } else {
            Ok(None)
        }
    }

    /// Sets the status of the plugin at `plugin_address`. Deactivation is
    /// refused while the plugin manager's answer says the plugin is enabled.
    pub fn update_plugin(
        &mut self,
        plugin_address: String,
        status: PluginStatus,
        plugin_info: Result<PluginResponse, String>,
    ) -> (r: Result<(), ContractError>)
        requires
            old(self).wf(),
        ensures
            final(self).wf(),
            r matches Err(e) ==> *final(self) == *old(self),
            !registered(old(self).plugins@, plugin_address@) ==> r == Err::<(), _>(
                ContractError::NotFound,
            ),
            registered(old(self).plugins@, plugin_address@) ==> {
                let i = index_of(old(self).plugins@, plugin_address@);
                let p = old(self).plugins@[i];
                &&& 0 <= i < old(self).plugins@.len()
                &&& p.contract_address@ == plugin_address@
                &&& p.status == status ==> r == Err::<(), _>(ContractError::NoStatusChange)
                &&& p.status != status && status == PluginStatus::Inactive && manager_enabled(
                    plugin_info,
                ) ==> r == Err::<(), _>(ContractError::StillEnabledByManager)
                &&& p.status != status && !(status == PluginStatus::Inactive && manager_enabled(
                    plugin_info,
                )) ==> {
                    &&& r is Ok
                    &&& final(self).plugins@ == old(self).plugins@.update(i, with_status(p, status))
                    &&& final(self).config.plugin_manager_addr
                        == old(self).config.plugin_manager_addr
                    &&& final(self).config.recoverable == if is_recovery(p) {
                        status == PluginStatus::Active
                    } else {
                        old(self).config.recoverable
                    }
                }
            },
    {
        let i = match self.find(&plugin_address) {
            None => {
                return Err(ContractError::NotFound);
            },
            Some(i) => i,
        };
        proof {
            lemma_index_of(self.plugins@, i as int);
        }
        if self.plugins[i].status == status {
            return Err(ContractError::NoStatusChange);
        }
        if status == PluginStatus::Inactive {
            let enabled = match &plugin_info {
                Ok(info) => info.enabled(),
                Err(_) => false,
            };
            if enabled {
                return Err(ContractError::StillEnabledByManager);
            }
        }
        let ghost old_ps = self.plugins@;
        let p = self.plugins.remove(i);
        let updated = Plugin {
            name: p.name,
            plugin_type: p.plugin_type,
            contract_address: p.contract_address,
            status,
            config: p.config,
        };
        let recovery = updated.plugin_type == PluginType::Recovery;
        self.plugins.insert(i, updated);
        if recovery {
            self.config.recoverable = status == PluginStatus::Active;
        }
        proof {
            let ps = self.plugins@;
            assert(ps =~= old_ps.update(i as int, with_status(old_ps[i as int], status)));
            assert forall|a: int, b: int| 0 <= a < b < ps.len() implies addr_lt(
                #[trigger] ps[a].contract_address@,
                #[trigger] ps[b].contract_address@,
            ) by {
                assert(old_ps[a].contract_address == ps[a].contract_address);
                assert(old_ps[b].contract_address == ps[b].contract_address);
            }
            assert forall|a: int, b: int|
                0 <= a < ps.len() && 0 <= b < ps.len() && is_recovery(#[trigger] ps[a]) && is_recovery(
                    #[trigger] ps[b],
                ) implies a == b by {
                assert(is_recovery(old_ps[a]) && is_recovery(old_ps[b]));
            }
            if recovery {
                if status == PluginStatus::Active {
                    assert(is_active_recovery(ps[i as int]));
                } else {
                    assert forall|a: int| 0 <= a < ps.len() implies !is_active_recovery(#[trigger] ps[a]) by {
                        if a != i {
                            assert(is_recovery(old_ps[i as int]));
                            assert(old_ps[a] == ps[a]);
                        }
                    }
                }
            } else if has_active_recovery(old_ps) {
                let w = choose|w: int| 0 <= w < old_ps.len() && is_active_recovery(#[trigger] old_ps[w]);
                assert(ps[w] == old_ps[w]);
            } else {
                assert forall|a: int| 0 <= a < ps.len() implies !is_active_recovery(#[trigger] ps[a]) by {
                    if a != i {
                        assert(old_ps[a] == ps[a]);
                    }
                }
            }
        }
        Ok(())
    }
}

/// The position of the record with address `a` (meaningful when there is one).
pub open spec fn index_of(ps: Seq<Plugin>, a: Seq<char>) -> int {
    choose|i: int| 0 <= i < ps.len() && (#[trigger] ps[i]).contract_address@ == a
}

/// The record `p` with status `status`.
pub open spec fn with_status(p: Plugin, status: PluginStatus) -> Plugin {
    Plugin { status, ..p }
}

/// In sorted records an address names one position.
pub proof fn lemma_unique_address(ps: Seq<Plugin>, i: int, j: int)
    requires
        sorted(ps),
        0 <= i < ps.len(),
        0 <= j < ps.len(),
        ps[i].contract_address@ == ps[j].contract_address@,
    ensures
        i == j,
{
    lemma_addr_lt_irreflexive(ps[i].contract_address@);
    if i < j {
        assert(addr_lt(ps[i].contract_address@, ps[j].contract_address@));
    } else if j < i {
        assert(addr_lt(ps[j].contract_address@, ps[i].contract_address@));
    }
}

proof fn lemma_index_of(ps: Seq<Plugin>, i: int)
    requires
        sorted(ps),
        0 <= i < ps.len(),
    ensures
        index_of(ps, ps[i].contract_address@) == i,
        registered(ps, ps[i].contract_address@),
{
    let a = ps[i].contract_address@;
    assert(registered(ps, a));
    let j = index_of(ps, a);
    lemma_unique_address(ps, i, j);
}

/// Registering an address a second time fails with `AlreadyRegistered`,
/// whatever the configuration and whatever the manager answers: once a
/// registration has stored its record, the address is registered.
pub proof fn lemma_register_twice_fails(
    before: Seq<Plugin>,
    k: int,
    plugin_address: String,
    config: String,
    info: PluginResponse,
    second_info: Result<PluginResponse, String>,
    second_code_id: Result<u64, String>,
)
    requires
        0 <= k <= before.len(),
    ensures
        register_error(
            before.insert(k, new_record(plugin_address, config, info)),
            plugin_address@,
            second_info,
            second_code_id,
        ) == Some(ContractError::AlreadyRegistered),
{
    let after = before.insert(k, new_record(plugin_address, config, info));
    assert(after[k].contract_address@ == plugin_address@);
}

/// While the account is recoverable, registering another recovery plugin
/// that passes the manager's checks fails with `RecoveryAlreadyRegistered`.
pub proof fn lemma_second_recovery_refused(
    account: Account,
    plugin_address: Seq<char>,
    info: PluginResponse,
)
    requires
        account.wf(),
        account.config.recoverable,
        !registered(account.plugins@, plugin_address),
        info.spec_enabled(),
        info.plugin_type == PluginType::Recovery,
    ensures
        register_error(account.plugins@, plugin_address, Ok(info), Ok(info.code_id)) == Some(
            ContractError::RecoveryAlreadyRegistered,
        ),
{
    let w = choose|w: int| 0 <= w < account.plugins@.len() && is_active_recovery(#[trigger] account.plugins@[w]);
    assert(is_recovery(account.plugins@[w]));
}

/// Once the recovery plugin is unregistered the account is no longer
/// recoverable (so recovery is refused with `RecoveryNotEnabled`).
pub proof fn lemma_unregister_recovery_disables(before: Account, after: Account, i: int)
    requires
        before.wf(),
        after.wf(),
        0 <= i < before.plugins@.len(),
        is_recovery(before.plugins@[i]),
        after.plugins@ == before.plugins@.remove(i),
    ensures
        !after.config.recoverable,
{
    let ps = after.plugins@;
    assert forall|a: int| 0 <= a < ps.len() implies !is_active_recovery(#[trigger] ps[a]) by {
        let oa = if a < i { a } else { a + 1 };
        assert(before.plugins@[oa] == ps[a]);
    }
}

/// Records whose neighbours are in ascending order are sorted.
proof fn lemma_sorted_from_adjacent(ps: Seq<Plugin>)
    requires
        forall|j: int|
            0 <= j < ps.len() - 1 ==> addr_lt(
                #[trigger] ps[j].contract_address@,
                ps[j + 1].contract_address@,
            ),
    ensures
        sorted(ps),
{
    assert forall|i: int, j: int| 0 <= i < j < ps.len() implies addr_lt(
        #[trigger] ps[i].contract_address@,
        #[trigger] ps[j].contract_address@,
    ) by {
        lemma_ascending_run(ps, i, j);
    }
}

proof fn lemma_ascending_run(ps: Seq<Plugin>, i: int, j: int)
    requires
        0 <= i < j < ps.len(),
        forall|k: int|
            0 <= k < ps.len() - 1 ==> addr_lt(
                #[trigger] ps[k].contract_address@,
                ps[k + 1].contract_address@,
            ),
    ensures
        addr_lt(ps[i].contract_address@, ps[j].contract_address@),
    decreases j - i,
{
    if j > i + 1 {
        lemma_ascending_run(ps, i, j - 1);
        assert(addr_lt(ps[j - 1].contract_address@, ps[j].contract_address@));
        lemma_addr_lt_transitive(
            ps[i].contract_address@,
            ps[j - 1].contract_address@,
            ps[j].contract_address@,
        );
    }
}

} // verus!
