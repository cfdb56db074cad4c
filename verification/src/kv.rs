//! String-keyed association lists, the executable form behind every
//! mapping in the scene model (node metadata and the descriptor store).
//! The specification view of a list is the `Map` obtained by inserting
//! the pairs in order, so a later entry for a key shadows an earlier one.

use vstd::prelude::*;

verus! {

/// The map described by an association list: pairs inserted in order,
/// the last entry for a key winning.
pub open spec fn kv_map<T: View>(s: Seq<(String, T)>) -> Map<Seq<char>, T::V>
    decreases s.len(),
{
    if s.len() == 0 {
        Map::empty()
    } else {
        kv_map(s.drop_last()).insert(s.last().0@, s.last().1@)
    }
}

/// Look a key up in an association list: the result is exactly the
/// entry of `kv_map` at that key, when there is one.
pub fn kv_get<'a, T: View>(entries: &'a Vec<(String, T)>, key: &str) -> (r: Option<&'a T>)
    ensures
        match r {
            Some(v) => kv_map(entries@).contains_key(key@) && v@ == kv_map(entries@)[key@],
            None => !kv_map(entries@).contains_key(key@),
        },
{
    let k: String = key.to_owned();
    let mut i: usize = entries.len();
    assert(entries@.take(i as int) =~= entries@);
    while i > 0
        invariant
            i <= entries.len(),
            k@ == key@,
            kv_map(entries@).contains_key(key@) == kv_map(entries@.take(i as int)).contains_key(
                key@,
            ),
            kv_map(entries@).contains_key(key@) ==> kv_map(entries@)[key@] == kv_map(
                entries@.take(i as int),
            )[key@],
        decreases i,
    {
        i = i - 1;
        assert(entries@.take(i as int + 1).drop_last() =~= entries@.take(i as int));
        assert(entries@.take(i as int + 1).last() == entries@[i as int]);
        if entries[i].0 == k {
            return Some(&entries[i].1);
        }
    }
    assert(entries@.take(0) =~= Seq::<(String, T)>::empty());
    None
}

/// Append a key/value pair to an association list; in the map view this
/// is exactly an insert.
pub fn kv_set<T: View>(entries: &mut Vec<(String, T)>, key: String, value: T)
    ensures
        kv_map(final(entries)@) == kv_map(old(entries)@).insert(key@, value@),
        final(entries)@.len() == old(entries)@.len() + 1,
{
    let ghost k = key@;
    let ghost v = value@;
    entries.push((key, value));
    proof {
        assert(entries@.drop_last() =~= old(entries)@);
        assert(entries@.last().0@ == k);
        assert(entries@.last().1@ == v);
    }
}

} // verus!
