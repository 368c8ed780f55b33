//! Lists of named entries read as maps: a later entry under a name replaces
//! an earlier one.

use vstd::prelude::*;

verus! {

/// The value of the last entry named `name`.
pub open spec fn lookup<T>(entries: Seq<(String, T)>, name: Seq<char>) -> Option<T>
    decreases entries.len(),
{
    if entries.len() == 0 {
        None
    } else if entries.last().0@ == name {
        Some(entries.last().1)
    } else {
        lookup(entries.drop_last(), name)
    }
}

/// The map that `entries` describe.
pub open spec fn named_map<T>(entries: Seq<(String, T)>) -> Map<Seq<char>, T> {
    Map::new(|name: Seq<char>| lookup(entries, name) is Some, |name: Seq<char>| lookup(entries, name)->0)
}

/// Adding an entry at the end inserts it into the map.
pub proof fn lemma_push_inserts<T>(entries: Seq<(String, T)>, name: String, value: T)
    ensures
        named_map(entries.push((name, value))) == named_map(entries).insert(name@, value),
{
    assert(entries.push((name, value)).drop_last() == entries);
    assert(named_map(entries.push((name, value))) =~= named_map(entries).insert(name@, value));
}

/// A value the map holds is the value of one of the entries.
pub proof fn lemma_named_value_is_entry<T>(entries: Seq<(String, T)>, name: Seq<char>)
    requires
        named_map(entries).contains_key(name),
    ensures
        exists|i: int| 0 <= i < entries.len() && #[trigger] entries[i].1 == named_map(entries)[name],
    decreases entries.len(),
{
    if entries.last().0@ == name {
        assert(entries[entries.len() - 1].1 == named_map(entries)[name]);
    } else {
        let rest = entries.drop_last();
        assert(named_map(rest).contains_key(name));
        lemma_named_value_is_entry(rest, name);
        let i = choose|i: int| 0 <= i < rest.len() && #[trigger] rest[i].1 == named_map(rest)[name];
        assert(entries[i].1 == named_map(entries)[name]);
    }
}

/// The position of the last entry named `name`, if any.
pub fn find_named<T>(entries: &Vec<(String, T)>, name: &str) -> (r: Option<usize>)
    ensures
        match r {
            Some(i) => i < entries@.len() && named_map(entries@).contains_key(name@) && named_map(
                entries@,
            )[name@] == entries@[i as int].1,
            None => !named_map(entries@).contains_key(name@),
        },
{
    let key = name.to_owned();
    let mut j = entries.len();
    assert(entries@.subrange(0, j as int) == entries@);
    while j > 0
        invariant
            j <= entries@.len(),
            key@ == name@,
            lookup(entries@, name@) == lookup(entries@.subrange(0, j as int), name@),
        decreases j,
    {
        let ghost prefix = entries@.subrange(0, j as int);
        assert(prefix.drop_last() == entries@.subrange(0, j - 1));
        if entries[j - 1].0 == key {
            return Some(j - 1);
        }
        j = j - 1;
    }
    None
}

} // verus!
