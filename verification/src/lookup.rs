//! Finding an entry of a decoded list by its name.

use crate::strings::same_text;
use vstd::prelude::*;

verus! {

/// What tells the names of this crate's catalogs apart: the length of a
/// name, its first two characters and its last two. Names that differ in
/// their mark differ.
pub open spec fn mark(name: Seq<char>) -> (nat, char, char, char, char) {
    (name.len(), name[0], name[1], name[name.len() - 2], name.last())
}

/// The names of a list of entries, in order.
pub open spec fn names_of<T>(entries: Seq<(&'static str, T)>) -> Seq<Seq<char>> {
    entries.map_values(|entry: (&'static str, T)| entry.0@)
}

/// The first place at which `name` stands among `names`, if it stands
/// there at all.
pub open spec fn position(names: Seq<Seq<char>>, name: Seq<char>) -> Option<int>
    decreases names.len(),
{
    if names.len() == 0 {
        None
    } else if position(names.drop_last(), name) is Some {
        position(names.drop_last(), name)
    } else if names.last() == name {
        Some(names.len() - 1)
    } else {
        None
    }
}

/// The place that `position` gives holds the name, and no place before it
/// does; where it gives none, no place holds the name.
pub proof fn position_is_first_of_its_name(names: Seq<Seq<char>>, name: Seq<char>)
    ensures
        position(names, name) matches Some(at) ==> 0 <= at < names.len() && names[at] == name,
        position(names, name) matches Some(at) ==> forall|i: int|
            0 <= i < at ==> #[trigger] names[i] != name,
        position(names, name) is None ==> forall|i: int|
            0 <= i < names.len() ==> #[trigger] names[i] != name,
    decreases names.len(),
{
    if names.len() > 0 {
        let front = names.drop_last();
        position_is_first_of_its_name(front, name);
        match position(names, name) {
            Some(at) => {
                assert forall|i: int| 0 <= i < at implies #[trigger] names[i] != name by {
                    assert(front[i] == names[i]);
                }
            },
            None => {
                assert forall|i: int| 0 <= i < names.len() implies #[trigger] names[i] != name by {
                    if i < front.len() {
                        assert(front[i] == names[i]);
                    }
                }
            },
        }
    }
}

/// Where no name stands twice, each name is found at its own place.
pub proof fn distinct_names_are_found_in_place(names: Seq<Seq<char>>, place: int)
    requires
        0 <= place < names.len(),
        forall|i: int, j: int| 0 <= i < j < names.len() ==> #[trigger] names[i] != #[trigger] names[j],
    ensures
        position(names, names[place]) == Some(place),
{
    position_is_first_of_its_name(names, names[place]);
}

/// What is found among the first `count` names is found among them all.
proof fn lemma_position_extends(names: Seq<Seq<char>>, name: Seq<char>, count: nat)
    requires
        count <= names.len(),
        position(names.take(count as int), name) is Some,
    ensures
        position(names, name) == position(names.take(count as int), name),
    decreases names.len() - count,
{
    if count < names.len() {
        assert(names.take(count as int + 1).drop_last() =~= names.take(count as int));
        lemma_position_extends(names, name, count + 1);
    } else {
        assert(names.take(count as int) =~= names);
    }
}

/// Finds the first entry that goes by `name`.
pub fn find<'a, T>(entries: &'a [(&'static str, T)], name: &str) -> (found: Option<&'a T>)
    ensures
        position(names_of(entries@), name@) matches Some(at) ==> found == Some(&entries@[at].1),
        position(names_of(entries@), name@) is None ==> found is None,
{
    let ghost names = names_of(entries@);
    let mut at: usize = 0;
    while at < entries.len()
        invariant
            at <= entries@.len(),
            names == names_of(entries@),
            position(names.take(at as int), name@) is None,
        decreases entries@.len() - at,
    {
        assert(names.take(at + 1).drop_last() =~= names.take(at as int));
        if same_text(entries[at].0, name) {
            proof {
                lemma_position_extends(names, name@, (at + 1) as nat);
            }
            return Some(&entries[at].1);
        }
        at = at + 1;
    }
    assert(names.take(at as int) =~= names);
    None
}

} // verus!
