//! Lists of named values read as mappings: where a name occurs more than
//! once, its last occurrence counts. Names are compared as they are written.

use vstd::prelude::*;

verus! {

/// Whether `name` occurs in `list`.
pub open spec fn names<V>(list: Seq<(Seq<char>, V)>, name: Seq<char>) -> bool {
    exists|i: int| 0 <= i < list.len() && (#[trigger] list[i]).0 == name
}

/// Whether `i` is the last place at which `name` occurs in `list`.
pub open spec fn is_last<V>(list: Seq<(Seq<char>, V)>, name: Seq<char>, i: int) -> bool {
    &&& 0 <= i < list.len()
    &&& list[i].0 == name
    &&& forall|j: int| i < j < list.len() ==> (#[trigger] list[j]).0 != name
}

/// The last place at which `name` occurs in `list` (meaningful when it occurs).
pub open spec fn last_place<V>(list: Seq<(Seq<char>, V)>, name: Seq<char>) -> int {
    choose|i: int| is_last(list, name, i)
}

/// The list as a mapping from name to value.
pub open spec fn as_map<V>(list: Seq<(Seq<char>, V)>) -> Map<Seq<char>, V> {
    Map::new(|name: Seq<char>| names(list, name), |name: Seq<char>| list[last_place(list, name)].1)
}

/// The mathematical content of a stored list: each name by its characters.
pub open spec fn named<V>(v: Seq<(String, V)>) -> Seq<(Seq<char>, V)> {
    Seq::new(v.len(), |i: int| (v[i].0@, v[i].1))
}

/// There is one last place for each name that occurs.
pub proof fn lemma_last_place<V>(list: Seq<(Seq<char>, V)>, name: Seq<char>, i: int)
    requires
        is_last(list, name, i),
    ensures
        names(list, name),
        last_place(list, name) == i,
        as_map(list).contains_key(name),
        as_map(list)[name] == list[i].1,
{
    // The chosen place is a last place as `i` is, and two last places of
    // one name cannot differ.
    assert(is_last(list, name, last_place(list, name)));
}

/// A list with one more entry at its end maps that entry's name to its
/// value and every other name as before.
pub proof fn lemma_as_map_push<V>(list: Seq<(Seq<char>, V)>, name: Seq<char>, value: V)
    ensures
        as_map(list.push((name, value))) == as_map(list).insert(name, value),
{
    let longer = list.push((name, value));
    let n = list.len() as int;
    lemma_last_place(longer, name, n);
    assert forall|other: Seq<char>| other != name implies (names(longer, other) <==> names(
        list,
        other,
    )) && (names(list, other) ==> longer[last_place(longer, other)].1 == list[last_place(
        list,
        other,
    )].1) by {
        if names(list, other) {
            lemma_names_has_last(list, other);
            let k = last_place(list, other);
            assert(longer[k] == list[k]);
            assert(is_last(longer, other, k));
            lemma_last_place(longer, other, k);
        }
        if names(longer, other) {
            let i = choose|i: int| 0 <= i < longer.len() && (#[trigger] longer[i]).0 == other;
            assert(list[i].0 == other);
        }
    }
}

/// A name that occurs has a last place.
pub proof fn lemma_names_has_last<V>(list: Seq<(Seq<char>, V)>, name: Seq<char>)
    requires
        names(list, name),
    ensures
        is_last(list, name, last_place(list, name)),
    decreases list.len(),
{
    let n = list.len() as int;
    if list[n - 1].0 == name {
        assert(is_last(list, name, n - 1));
    } else {
        let front = list.drop_last();
        let i = choose|i: int| 0 <= i < list.len() && (#[trigger] list[i]).0 == name;
        assert(front[i].0 == name);
        lemma_names_has_last(front, name);
        let k = last_place(front, name);
        assert(is_last(list, name, k)) by {
            assert forall|j: int| k < j < list.len() implies (#[trigger] list[j]).0 != name by {
                if j < n - 1 {
                    assert(list[j] == front[j]);
                }
            }
        }
    }
}

/// Finds the last place at which `name` occurs.
pub fn find_last<V>(list: &Vec<(String, V)>, name: &str) -> (r: Option<usize>)
    ensures
        match r {
            Some(i) => is_last(named(list@), name@, i as int) && as_map(named(list@)).contains_key(
                name@,
            ) && as_map(named(list@))[name@] == list@[i as int].1,
            None => !as_map(named(list@)).contains_key(name@),
        },
{
    let ghost all = named(list@);
    let mut i: usize = list.len();
    while i > 0
        invariant
            i <= list@.len(),
            all == named(list@),
            forall|j: int| i <= j < all.len() ==> (#[trigger] all[j]).0 != name@,
        decreases i,
    {
        i -= 1;
        if *list[i].0.as_str() == *name {
            proof {
                lemma_last_place(all, name@, i as int);
            }
            return Some(i);
        }
    }
    None
}

} // verus!
