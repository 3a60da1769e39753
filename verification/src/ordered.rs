//! Identities in ascending order.
//!
//! A widget tree keeps its nodes ordered by identity, and whatever is listed
//! from it comes out in that order. An ascending list is fixed by the set of
//! identities it holds, which is what lets a contract name the set and still
//! pin the list down.
use std::collections::BTreeMap;
use vstd::prelude::*;
use vstd::std_specs::btree::{increasing_seq, spec_keys_iter};
use vstd::std_specs::cmp::OrdSpec;
use vstd::std_specs::iter::IteratorSpec;
use crate::handle::HandleHash;

verus! {

/// Whether each identity of `s` is smaller than the next one.
pub open spec fn ascending(s: Seq<HandleHash>) -> bool {
    forall|i: int, j: int| 0 <= i < j < s.len() ==> s[i].0 < s[j].0
}

/// Whether `s` lists exactly the identities of `set`, in ascending order.
pub open spec fn lists(s: Seq<HandleHash>, set: Set<HandleHash>) -> bool {
    &&& ascending(s)
    &&& forall|h: HandleHash| s.contains(h) <==> set.contains(h)
}

/// The identities under which `m` holds a value.
pub open spec fn key_set<V>(m: Map<u32, V>) -> Set<HandleHash> {
    Set::new(|h: HandleHash| m.contains_key(h.0))
}

/// The keys of `m` as identities, in ascending order.
pub(crate) fn sorted_keys<V>(m: &BTreeMap<u32, V>) -> (keys: Vec<HandleHash>)
    ensures
        lists(keys@, key_set(m@)),
{
    broadcast use vstd::laws_cmp::group_laws_cmp;

    let mut keys: Vec<HandleHash> = Vec::new();
    let ghost refs = spec_keys_iter(m).remaining();
    let ghost all = refs.unref();
    for k in it: m.keys()
        invariant
            it.seq().unref() == all,
            keys@.len() == it.index(),
            forall|j: int| 0 <= j < keys@.len() ==> keys@[j] == HandleHash(all[j]),
    {
        keys.push(HandleHash(*k));
    }
    assert(vstd::laws_cmp::obeys_cmp::<u32>());
    assert(vstd::laws_cmp::obeys_cmp::<&u32>());
    assert(increasing_seq(refs));
    assert forall|i: int, j: int| 0 <= i < j < keys@.len() implies keys@[i].0 < keys@[j].0 by {
        assert(OrdSpec::cmp_spec(&refs[i], &refs[j]) is Less);
    }
    assert forall|h: HandleHash| keys@.contains(h) <==> key_set(m@).contains(h) by {
        if keys@.contains(h) {
            let j = choose|j: int| 0 <= j < keys@.len() && keys@[j] == h;
            assert(all.to_set().contains(all[j]));
        }
        if key_set(m@).contains(h) {
            assert(all.to_set().contains(h.0));
            let j = choose|j: int| 0 <= j < all.len() && all[j] == h.0;
            assert(keys@[j] == h);
        }
    }
    keys
}

/// An ascending list is fixed by the identities it holds: two ascending
/// lists of the same set are the same list.
pub proof fn lemma_lists_unique(a: Seq<HandleHash>, b: Seq<HandleHash>, set: Set<HandleHash>)
    requires
        lists(a, set),
        lists(b, set),
    ensures
        a == b,
    decreases a.len(),
{
    if a.len() == 0 {
        if b.len() > 0 {
            assert(b.contains(b[0]));
            assert(a.contains(b[0]));
        }
        assert(a =~= b);
    } else {
        let top = a.last();
        assert(a.contains(top));
        assert(b.contains(top));
        assert(b.len() > 0);
        let other = b.last();
        assert(b.contains(other));
        assert(a.contains(other));
        let i = choose|i: int| 0 <= i < b.len() && b[i] == top;
        let j = choose|j: int| 0 <= j < a.len() && a[j] == other;
        assert(top == other);
        let rest = set.remove(top);
        assert forall|h: HandleHash| a.drop_last().contains(h) <==> rest.contains(h) by {
            if a.drop_last().contains(h) {
                let k = choose|k: int| 0 <= k < a.drop_last().len() && a.drop_last()[k] == h;
                assert(a[k] == h);
                assert(a.contains(h));
            }
            if rest.contains(h) {
                assert(a.contains(h));
                let k = choose|k: int| 0 <= k < a.len() && a[k] == h;
                assert(a.drop_last()[k] == h);
            }
        }
        assert forall|h: HandleHash| b.drop_last().contains(h) <==> rest.contains(h) by {
            if b.drop_last().contains(h) {
                let k = choose|k: int| 0 <= k < b.drop_last().len() && b.drop_last()[k] == h;
                assert(b[k] == h);
                assert(b.contains(h));
            }
            if rest.contains(h) {
                assert(b.contains(h));
                let k = choose|k: int| 0 <= k < b.len() && b[k] == h;
                assert(b.drop_last()[k] == h);
            }
        }
        lemma_lists_unique(a.drop_last(), b.drop_last(), rest);
        assert(a =~= a.drop_last().push(top));
        assert(b =~= b.drop_last().push(top));
    }
}

/// A list of no identities is empty.
pub proof fn lemma_lists_empty(a: Seq<HandleHash>)
    requires
        lists(a, Set::<HandleHash>::empty()),
    ensures
        a == Seq::<HandleHash>::empty(),
{
    if a.len() > 0 {
        assert(a.contains(a[0]));
    }
    assert(a =~= Seq::<HandleHash>::empty());
}

} // verus!
