//! Identifier-keyed tracking stores for the activation tracker.
//!
//! Rule identifiers are strings; activation state is tracked per identifier.
//! The stores are plain vectors with a no-duplicate invariant, viewed as a
//! set of identifiers and as a default-false map from identifier to flag.

use vstd::prelude::*;

verus! {

/// Whether two strings hold the same characters.
pub fn string_eq(a: &String, b: &String) -> (r: bool)
    ensures
        r == (a@ == b@),
{
    a.eq(b)
}

/// The set of identifiers a vector holds, compared by contents.
pub open spec fn id_set(v: Seq<String>) -> Set<Seq<char>> {
    Set::new(|s: Seq<char>| exists|i: int| 0 <= i < v.len() && v[i]@ == s)
}

/// No identifier occurs twice.
pub open spec fn ids_distinct(v: Seq<String>) -> bool {
    forall|i: int, j: int| 0 <= i < j < v.len() ==> v[i]@ != v[j]@
}

/// Whether the store holds an identifier.
pub fn id_contains(v: &Vec<String>, id: &String) -> (r: bool)
    ensures
        r == id_set(v@).contains(id@),
{
    let mut i: usize = 0;
    while i < v.len()
        invariant
            i <= v@.len(),
            forall|k: int| 0 <= k < i ==> v@[k]@ != id@,
        decreases v@.len() - i,
    {
        if string_eq(&v[i], id) {
            return true;
        }
        i = i + 1;
    }
    false
}

/// Adds an identifier to the store; already-present identifiers stay single.
pub fn id_insert(v: &mut Vec<String>, id: &String)
    requires
        ids_distinct(old(v)@),
    ensures
        ids_distinct(final(v)@),
        id_set(final(v)@) == id_set(old(v)@).insert(id@),
{
    if id_contains(v, id) {
        proof {
            assert forall|s: Seq<char>|
                id_set(old(v)@).insert(id@).contains(s) implies id_set(v@).contains(s) by {
                if s != id@ {
                    let i = choose|i: int| 0 <= i < old(v)@.len() && old(v)@[i]@ == s;
                    assert(v@[i]@ == s);
                }
            }
            assert(id_set(v@) =~= id_set(old(v)@).insert(id@));
        }
    } else {
        v.push(id.clone());
        proof {
            let n = old(v)@.len() as int;
            assert(v@[n]@ == id@);
            assert forall|s: Seq<char>|
                id_set(v@).contains(s) == id_set(old(v)@).insert(id@).contains(s) by {
                if id_set(v@).contains(s) {
                    let i = choose|i: int| 0 <= i < v@.len() && v@[i]@ == s;
                    if i < n {
                        assert(old(v)@[i]@ == s);
                    }
                }
                if id_set(old(v)@).insert(id@).contains(s) && s != id@ {
                    let i = choose|i: int| 0 <= i < old(v)@.len() && old(v)@[i]@ == s;
                    assert(v@[i]@ == s);
                }
            }
            assert(id_set(v@) =~= id_set(old(v)@).insert(id@));
        }
    }
}

/// Removes an identifier from the store; absent identifiers are a no-op.
pub fn id_remove(v: &mut Vec<String>, id: &String)
    requires
        ids_distinct(old(v)@),
    ensures
        ids_distinct(final(v)@),
        id_set(final(v)@) == id_set(old(v)@).remove(id@),
{
    let mut i: usize = 0;
    while i < v.len()
        invariant
            ids_distinct(v@),
            v == old(v),
            i <= v@.len(),
            forall|k: int| 0 <= k < i ==> v@[k]@ != id@,
        decreases v@.len() - i,
    {
        if string_eq(&v[i], id) {
            let ghost pre = v@;
            v.remove(i);
            proof {
                assert forall|s: Seq<char>|
                    id_set(v@).contains(s) == id_set(pre).remove(id@).contains(s) by {
                    if id_set(v@).contains(s) {
                        let k = choose|k: int| 0 <= k < v@.len() && v@[k]@ == s;
                        if k < i {
                            assert(pre[k]@ == s);
                        } else {
                            assert(pre[k + 1]@ == s);
                            assert(s != id@);
                        }
                    }
                    if id_set(pre).remove(id@).contains(s) {
                        let k = choose|k: int| 0 <= k < pre.len() && pre[k]@ == s;
                        assert(k != i);
                        if k < i {
                            assert(v@[k]@ == s);
                        } else {
                            assert(v@[k - 1]@ == s);
                        }
                    }
                }
                assert(id_set(v@) =~= id_set(pre).remove(id@));
            }
            return;
        }
        i = i + 1;
    }
    proof {
        assert forall|s: Seq<char>|
            id_set(old(v)@).remove(id@).contains(s) implies id_set(v@).contains(s) by {
        }
        assert(id_set(v@) =~= id_set(old(v)@).remove(id@));
    }
}

/// No flag entry's identifier occurs twice.
pub open spec fn flags_distinct(v: Seq<(String, bool)>) -> bool {
    forall|i: int, j: int| 0 <= i < j < v.len() ==> v[i].0@ != v[j].0@
}

/// The flag stored for an identifier, false when absent.
pub open spec fn spec_flag(v: Seq<(String, bool)>, id: Seq<char>) -> bool {
    if exists|i: int| 0 <= i < v.len() && v[i].0@ == id {
        v[choose|i: int| 0 <= i < v.len() && v[i].0@ == id].1
    } else {
        false
    }
}

/// The default-false map from identifier to flag that a store denotes.
pub open spec fn flag_map(v: Seq<(String, bool)>) -> Map<Seq<char>, bool> {
    Map::new(|k: Seq<char>| true, |k: Seq<char>| spec_flag(v, k))
}

/// Reads an identifier's flag, false when the store has no entry for it.
pub fn get_flag(v: &Vec<(String, bool)>, id: &String) -> (r: bool)
    requires
        flags_distinct(v@),
    ensures
        r == spec_flag(v@, id@),
{
    let mut i: usize = 0;
    while i < v.len()
        invariant
            flags_distinct(v@),
            i <= v@.len(),
            forall|k: int| 0 <= k < i ==> v@[k].0@ != id@,
        decreases v@.len() - i,
    {
        if string_eq(&v[i].0, id) {
            proof {
                let w = choose|k: int| 0 <= k < v@.len() && v@[k].0@ == id@;
                assert(w == i as int);
            }
            return v[i].1;
        }
        i = i + 1;
    }
    false
}

/// Writes an identifier's flag, leaving every other identifier's flag as it
/// was.
pub fn set_flag(v: &mut Vec<(String, bool)>, id: &String, val: bool)
    requires
        flags_distinct(old(v)@),
    ensures
        flags_distinct(final(v)@),
        flag_map(final(v)@) == flag_map(old(v)@).insert(id@, val),
{
    let mut i: usize = 0;
    while i < v.len()
        invariant
            flags_distinct(v@),
            v == old(v),
            i <= v@.len(),
            forall|k: int| 0 <= k < i ==> v@[k].0@ != id@,
        decreases v@.len() - i,
    {
        if string_eq(&v[i].0, id) {
            let key = v[i].0.clone();
            v.set(i, (key, val));
            proof {
                assert forall|k: Seq<char>| true implies spec_flag(v@, k) == flag_map(old(v)@).insert(
                    id@,
                    val,
                )[k] by {
                    if k == id@ {
                        let w = choose|m: int| 0 <= m < v@.len() && v@[m].0@ == k;
                        assert(v@[i as int].0@ == k);
                        assert(w == i as int);
                    } else {
                        if exists|m: int| 0 <= m < old(v)@.len() && old(v)@[m].0@ == k {
                            let w = choose|m: int| 0 <= m < old(v)@.len() && old(v)@[m].0@ == k;
                            assert(v@[w].0@ == k);
                            let w2 = choose|m: int| 0 <= m < v@.len() && v@[m].0@ == k;
                            assert(w2 == w);
                        } else {
                            assert(forall|m: int| 0 <= m < v@.len() ==> v@[m].0@ != k);
                        }
                    }
                }
                assert(flag_map(v@) =~= flag_map(old(v)@).insert(id@, val));
            }
            return;
        }
        i = i + 1;
    }
    v.push((id.clone(), val));
    proof {
        assert forall|k: Seq<char>| true implies spec_flag(v@, k) == flag_map(old(v)@).insert(
            id@,
            val,
        )[k] by {
            let n = old(v)@.len() as int;
            if k == id@ {
                assert(v@[n].0@ == k);
                let w = choose|m: int| 0 <= m < v@.len() && v@[m].0@ == k;
                assert(w == n);
            } else {
                if exists|m: int| 0 <= m < old(v)@.len() && old(v)@[m].0@ == k {
                    let w = choose|m: int| 0 <= m < old(v)@.len() && old(v)@[m].0@ == k;
                    assert(v@[w].0@ == k);
                    let w2 = choose|m: int| 0 <= m < v@.len() && v@[m].0@ == k;
                    assert(w2 == w);
                } else {
                    assert(forall|m: int| 0 <= m < v@.len() ==> v@[m].0@ != k);
                }
            }
        }
        assert(flag_map(v@) =~= flag_map(old(v)@).insert(id@, val));
    }
}

} // verus!
