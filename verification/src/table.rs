use vstd::prelude::*;

verus! {

/// Last-match lookup in an association list: a later entry for a key
/// overrides an earlier one, so appending is insertion.
pub open spec fn assoc_lookup<K>(entries: Seq<(K, Seq<char>)>, key: K) -> Option<Seq<char>>
    decreases entries.len(),
{
    if entries.len() == 0 {
        None
    } else if entries.last().0 == key {
        Some(entries.last().1)
    } else {
        assoc_lookup(entries.drop_last(), key)
    }
}

/// Finds the value of the latest entry for `key`, if any.
pub fn lookup(entries: &Vec<(String, String)>, key: &str) -> (r: Option<String>)
    ensures
        match r {
            Some(v) => assoc_lookup(entries.deep_view(), key@) == Some(v@),
            None => assoc_lookup(entries.deep_view(), key@) is None,
        },
{
    let k: String = key.to_owned();
    let mut i: usize = entries.len();
    proof {
        assert(entries.deep_view().take(i as int) =~= entries.deep_view());
    }
    while i > 0
        invariant
            i <= entries@.len(),
            k@ == key@,
            assoc_lookup(entries.deep_view(), key@) == assoc_lookup(
                entries.deep_view().take(i as int),
                key@,
            ),
        decreases i,
    {
        proof {
            assert(entries.deep_view().take(i as int).drop_last() =~= entries.deep_view().take(
                i as int - 1,
            ));
            assert(entries.deep_view().take(i as int).last() == entries.deep_view()[i as int - 1]);
            assert(entries.deep_view()[i as int - 1] == (
                entries@[i as int - 1].0@,
                entries@[i as int - 1].1@,
            ));
        }
        let e = &entries[i - 1];
        if e.0 == k {
            return Some(e.1.clone());
        }
        i = i - 1;
    }
    proof {
        assert(assoc_lookup(entries.deep_view().take(0), key@) is None);
    }
    None
}

/// Finds the value of the latest entry for the pair `(key0, key1)`, if any.
pub fn lookup_by_pair(entries: &Vec<((String, String), String)>, key0: &str, key1: &str) -> (r:
    Option<String>)
    ensures
        match r {
            Some(v) => assoc_lookup(entries.deep_view(), (key0@, key1@)) == Some(v@),
            None => assoc_lookup(entries.deep_view(), (key0@, key1@)) is None,
        },
{
    let k0: String = key0.to_owned();
    let k1: String = key1.to_owned();
    let mut i: usize = entries.len();
    proof {
        assert(entries.deep_view().take(i as int) =~= entries.deep_view());
    }
    while i > 0
        invariant
            i <= entries@.len(),
            k0@ == key0@,
            k1@ == key1@,
            assoc_lookup(entries.deep_view(), (key0@, key1@)) == assoc_lookup(
                entries.deep_view().take(i as int),
                (key0@, key1@),
            ),
        decreases i,
    {
        proof {
            assert(entries.deep_view().take(i as int).drop_last() =~= entries.deep_view().take(
                i as int - 1,
            ));
            assert(entries.deep_view().take(i as int).last() == entries.deep_view()[i as int - 1]);
            assert(entries.deep_view()[i as int - 1] == (
                (entries@[i as int - 1].0.0@, entries@[i as int - 1].0.1@),
                entries@[i as int - 1].1@,
            ));
        }
        let e = &entries[i - 1];
        if e.0.0 == k0 && e.0.1 == k1 {
            return Some(e.1.clone());
        }
        i = i - 1;
    }
    proof {
        assert(assoc_lookup(entries.deep_view().take(0), (key0@, key1@)) is None);
    }
    None
}

} // verus!
