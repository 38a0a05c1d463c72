//! Keyed sequences (object members, query pairs) read by key: what a
//! reader of a request body or a query string finds under each name.

use vstd::prelude::*;

verus! {

/// The value of the first entry named `key`, if any.
pub open spec fn lookup<V>(m: Seq<(Seq<char>, V)>, key: Seq<char>) -> Option<V>
    decreases m.len(),
{
    if m.len() == 0 {
        None
    } else if m[0].0 == key {
        Some(m[0].1)
    } else {
        lookup(m.drop_first(), key)
    }
}

/// The number of options among a record's fields that are set.
pub open spec fn set_count<T>(o: Option<T>) -> nat {
    if o is Some {
        1
    } else {
        0
    }
}

/// A key is looked up in a concatenation first in its front part, then in
/// the rest.
pub proof fn lemma_lookup_concat<V>(a: Seq<(Seq<char>, V)>, b: Seq<(Seq<char>, V)>)
    ensures
        forall|k: Seq<char>|
            #[trigger] lookup(a + b, k) == (match lookup(a, k) {
                Some(v) => Some(v),
                None => lookup(b, k),
            }),
    decreases a.len(),
{
    if a.len() == 0 {
        assert(a + b =~= b);
    } else {
        lemma_lookup_concat(a.drop_first(), b);
        assert((a + b).drop_first() =~= a.drop_first() + b);
        assert forall|k: Seq<char>|
            #[trigger] lookup(a + b, k) == (match lookup(a, k) {
                Some(v) => Some(v),
                None => lookup(b, k),
            }) by {
            assert((a + b)[0] == a[0]);
            assert(lookup(a + b, k) == if (a + b)[0].0 == k {
                Some((a + b)[0].1)
            } else {
                lookup((a + b).drop_first(), k)
            });
            assert(lookup(a, k) == if a[0].0 == k {
                Some(a[0].1)
            } else {
                lookup(a.drop_first(), k)
            });
        }
    }
}

/// The lookups in an empty sequence and in a single entry.
pub proof fn lemma_lookup_small<V>(k2: Seq<char>, v: V)
    ensures
        forall|k: Seq<char>| #[trigger] lookup(Seq::<(Seq<char>, V)>::empty(), k) is None,
        forall|k: Seq<char>|
            #[trigger] lookup(seq![(k2, v)], k) == (if k == k2 {
                Some(v)
            } else {
                None
            }),
{
    assert forall|k: Seq<char>|
        #[trigger] lookup(seq![(k2, v)], k) == (if k == k2 {
            Some(v)
        } else {
            None
        }) by {
        reveal_with_fuel(lookup, 2);
        assert(seq![(k2, v)].drop_first() =~= Seq::<(Seq<char>, V)>::empty());
    }
}

} // verus!
