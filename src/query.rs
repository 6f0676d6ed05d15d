//! Listing the account's plugins a page at a time, in ascending address order.

use vstd::prelude::*;
use crate::account::{sorted, Account, Plugin};
use crate::addr::{addr_less, addr_lt, lemma_addr_lt_transitive};

verus! {

/// The page size used when none is asked for.
pub const DEFAULT_LIMIT: u32 = 10;

/// The largest page size.
pub const MAX_LIMIT: u32 = 30;

/// The size of a page asked for with `limit`.
pub open spec fn page_size(limit: Option<u32>) -> int {
    let l = match limit {
        Some(l) => l,
        None => DEFAULT_LIMIT,
    };
    if l < MAX_LIMIT {
        l as int
    } else {
        MAX_LIMIT as int
    }
}

/// The plugin `p` comes after the cursor `start` (every plugin does when there
/// is none).
pub open spec fn after_cursor(p: Plugin, start: Option<String>) -> bool {
    match start {
        Some(s) => addr_lt(s@, p.contract_address@),
        None => true,
    }
}

/// The plugins of `ps` that come after the cursor, in their order.
pub open spec fn plugins_after(ps: Seq<Plugin>, start: Option<String>) -> Seq<Plugin>
    decreases ps.len(),
{
    if ps.len() == 0 {
        Seq::empty()
    } else {
        let rest = plugins_after(ps.drop_last(), start);
        if after_cursor(ps.last(), start) {
            rest.push(ps.last())
        } else {
            rest
        }
    }
}

/// At most the first `n` elements of `s`.
pub open spec fn at_most(s: Seq<Plugin>, n: int) -> Seq<Plugin> {
    if s.len() <= n {
        s
    } else {
        s.take(n)
    }
}

/// The page of `ps` after the cursor `start` with page size from `limit`.
pub open spec fn page(ps: Seq<Plugin>, start: Option<String>, limit: Option<u32>) -> Seq<Plugin> {
    at_most(plugins_after(ps, start), page_size(limit))
}

fn copy_plugin(p: &Plugin) -> (r: Plugin)
    ensures
        r == *p,
{
    Plugin {
        name: p.name.clone(),
        plugin_type: p.plugin_type,
        contract_address: p.contract_address.clone(),
        status: p.status,
        config: p.config.clone(),
    }
}

impl Account {
    /// The registered plugins whose address sorts after `start_after`, in
    /// ascending address order, at most `limit` of them (10 when no limit is
    /// given, never more than 30).
    pub fn all_plugins(&self, start_after: Option<String>, limit: Option<u32>) -> (r: Vec<Plugin>)
        ensures
            r@ == page(self.plugins@, start_after, limit),
    {
        let l = match limit {
            Some(l) => l,
            None => DEFAULT_LIMIT,
        };
        let size: usize = if l < MAX_LIMIT {
            l as usize
        } else {
            MAX_LIMIT as usize
        };
        let mut out: Vec<Plugin> = Vec::new();
        let mut i: usize = 0;
        assert(self.plugins@.take(0) =~= Seq::<Plugin>::empty());
        while i < self.plugins.len()
            invariant
                size == page_size(limit),
                i <= self.plugins@.len(),
                out@ == at_most(plugins_after(self.plugins@.take(i as int), start_after), size as int),
            decreases self.plugins@.len() - i,
        {
            let p = &self.plugins[i];
            let ghost f = plugins_after(self.plugins@.take(i as int), start_after);
            assert(self.plugins@.take(i + 1).drop_last() =~= self.plugins@.take(i as int));
            let after = match &start_after {
                Some(s) => addr_less(s, &p.contract_address),
                None => true,
            };
            if after {
                if out.len() < size {
                    out.push(copy_plugin(p));
                    assert(out@ =~= f.push(*p));
                } else {
                    assert(f.push(*p).take(size as int) =~= f.take(size as int));
                }
            }
            i = i + 1;
        }
        assert(self.plugins@.take(i as int) =~= self.plugins@);
        out
    }
}

/// The plugins after a cursor are plugins of `ps`, each after the cursor, and
/// in ascending order when `ps` is.
pub proof fn lemma_plugins_after(ps: Seq<Plugin>, start: Option<String>)
    requires
        sorted(ps),
    ensures
        sorted(plugins_after(ps, start)),
        forall|k: int|
            0 <= k < plugins_after(ps, start).len() ==> after_cursor(
                #[trigger] plugins_after(ps, start)[k],
                start,
            ),
        forall|k: int|
            0 <= k < plugins_after(ps, start).len() ==> exists|j: int|
                0 <= j < ps.len() && ps[j] == #[trigger] plugins_after(ps, start)[k],
    decreases ps.len(),
{
    if ps.len() > 0 {
        let init = ps.drop_last();
        assert(sorted(init)) by {
            assert forall|i: int, j: int| 0 <= i < j < init.len() implies addr_lt(
                #[trigger] init[i].contract_address@,
                #[trigger] init[j].contract_address@,
            ) by {
                assert(init[i] == ps[i] && init[j] == ps[j]);
            }
        }
        lemma_plugins_after(init, start);
        let rest = plugins_after(init, start);
        let f = plugins_after(ps, start);
        assert forall|k: int| 0 <= k < rest.len() implies exists|j: int|
            0 <= j < ps.len() && ps[j] == #[trigger] rest[k] by {
            let j = choose|j: int| 0 <= j < init.len() && init[j] == rest[k];
            assert(ps[j] == rest[k]);
        }
        if after_cursor(ps.last(), start) {
            assert forall|i: int, j: int| 0 <= i < j < f.len() implies addr_lt(
                #[trigger] f[i].contract_address@,
                #[trigger] f[j].contract_address@,
            ) by {
                if j == f.len() - 1 {
                    let w = choose|w: int| 0 <= w < init.len() && init[w] == rest[i];
                    assert(ps[w] == f[i]);
                    assert(ps[ps.len() - 1] == f[j]);
                } else {
                    assert(f[i] == rest[i] && f[j] == rest[j]);
                }
            }
            assert forall|k: int| 0 <= k < f.len() implies exists|j: int|
                0 <= j < ps.len() && ps[j] == #[trigger] f[k] by {
                if k == f.len() - 1 {
                    assert(ps[ps.len() - 1] == f[k]);
                } else {
                    assert(f[k] == rest[k]);
                }
            }
        }
    }
}

/// Paging through the registry: each page is in ascending address order, and
/// the page that starts after the last plugin of a first page holds only
/// plugins that sort after every plugin of the first page, so the two pages do
/// not overlap.
pub proof fn lemma_next_page_follows(account: Account, limit: Option<u32>)
    requires
        account.wf(),
        page(account.plugins@, None, limit).len() > 0,
    ensures
        ({
            let first = page(account.plugins@, None, limit);
            let next = page(account.plugins@, Some(first.last().contract_address), limit);
            &&& sorted(first)
            &&& sorted(next)
            &&& forall|i: int, j: int|
                0 <= i < first.len() && 0 <= j < next.len() ==> addr_lt(
                    #[trigger] first[i].contract_address@,
                    #[trigger] next[j].contract_address@,
                )
        }),
{
    let ps = account.plugins@;
    let f1 = plugins_after(ps, None);
    let first = page(ps, None, limit);
    let cursor = Some(first.last().contract_address);
    let f2 = plugins_after(ps, cursor);
    let next = page(ps, cursor, limit);
    lemma_plugins_after(ps, None);
    lemma_plugins_after(ps, cursor);
    assert(forall|k: int| 0 <= k < first.len() ==> first[k] == f1[k]);
    assert(forall|k: int| 0 <= k < next.len() ==> next[k] == f2[k]);
    assert forall|i: int, j: int| 0 <= i < first.len() && 0 <= j < next.len() implies addr_lt(
        #[trigger] first[i].contract_address@,
        #[trigger] next[j].contract_address@,
    ) by {
        assert(after_cursor(f2[j], cursor));
        if i < first.len() - 1 {
            assert(addr_lt(f1[i].contract_address@, f1[first.len() - 1].contract_address@));
            lemma_addr_lt_transitive(
                first[i].contract_address@,
                first.last().contract_address@,
                next[j].contract_address@,
            );
        }
    }
}

} // verus!
