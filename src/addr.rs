//! The order of plugin addresses: records are kept and listed in ascending
//! order of their address text, compared character by character (which is the
//! order of their UTF-8 bytes).

use vstd::prelude::*;

verus! {

/// `a` sorts strictly before `b`.
pub open spec fn addr_lt(a: Seq<char>, b: Seq<char>) -> bool
    decreases a.len(),
{
    if a.len() == 0 {
        b.len() > 0
    } else if b.len() == 0 {
        false
    } else if a[0] != b[0] {
        (a[0] as int) < (b[0] as int)
    } else {
        addr_lt(a.drop_first(), b.drop_first())
    }
}

pub proof fn lemma_addr_lt_irreflexive(a: Seq<char>)
    ensures
        !addr_lt(a, a),
    decreases a.len(),
{
    if a.len() > 0 {
        lemma_addr_lt_irreflexive(a.drop_first());
    }
}

pub proof fn lemma_addr_lt_total(a: Seq<char>, b: Seq<char>)
    ensures
        a == b || addr_lt(a, b) || addr_lt(b, a),
        !(addr_lt(a, b) && addr_lt(b, a)),
    decreases a.len(),
{
    if a.len() > 0 && b.len() > 0 {
        if a[0] == b[0] {
            lemma_addr_lt_total(a.drop_first(), b.drop_first());
            if a.drop_first() == b.drop_first() {
                assert(a =~= seq![a[0]] + a.drop_first());
                assert(b =~= seq![b[0]] + b.drop_first());
            }
        } else {
            assert((a[0] as int) != (b[0] as int));
        }
    } else if a.len() == 0 && b.len() == 0 {
        assert(a =~= b);
    }
}

pub proof fn lemma_addr_lt_transitive(a: Seq<char>, b: Seq<char>, c: Seq<char>)
    requires
        addr_lt(a, b),
        addr_lt(b, c),
    ensures
        addr_lt(a, c),
    decreases a.len(),
{
    if a.len() > 0 && b.len() > 0 && c.len() > 0 {
        if a[0] == b[0] && b[0] == c[0] {
            lemma_addr_lt_transitive(a.drop_first(), b.drop_first(), c.drop_first());
        }
    }
}

/// Executable form of `addr_lt`.
pub fn addr_less(a: &String, b: &String) -> (r: bool)
    ensures
        r == addr_lt(a@, b@),
{
    let sa = a.as_str();
    let sb = b.as_str();
    let la = sa.unicode_len();
    let lb = sb.unicode_len();
    let mut i: usize = 0;
    assert(a@.skip(0) =~= a@);
    assert(b@.skip(0) =~= b@);
    while i < la && i < lb
        invariant
            sa@ == a@,
            sb@ == b@,
            la == a@.len(),
            lb == b@.len(),
            i <= la,
            i <= lb,
            addr_lt(a@, b@) == addr_lt(a@.skip(i as int), b@.skip(i as int)),
        decreases la - i,
    {
        let ca = sa.get_char(i);
        let cb = sb.get_char(i);
        if ca != cb {
            return (ca as u32) < (cb as u32);
        }
        assert(a@.skip(i as int).drop_first() =~= a@.skip(i as int + 1));
        assert(b@.skip(i as int).drop_first() =~= b@.skip(i as int + 1));
        i = i + 1;
    }
    i < lb
}

} // verus!
