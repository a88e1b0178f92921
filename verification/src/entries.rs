//! Lists of named entries, which stand in for string-keyed maps.

use vstd::prelude::*;

verus! {

/// The map that a list of named entries stands for. Where a name occurs
/// more than once, the last entry under it counts.
pub open spec fn entries_map<T>(entries: Seq<(Seq<char>, T)>) -> Map<Seq<char>, T>
    decreases entries.len(),
{
    if entries.len() == 0 {
        Map::empty()
    } else {
        entries_map(entries.drop_last()).insert(entries.last().0, entries.last().1)
    }
}

/// Whether no name occurs twice in `entries`.
pub open spec fn distinct_names<T>(entries: Seq<(Seq<char>, T)>) -> bool {
    forall|i: int, j: int| 0 <= i < j < entries.len() ==> entries[i].0 != entries[j].0
}

/// The names of a list of entries are exactly the keys of its map, and
/// where no name occurs twice every entry is found under its name.
pub proof fn lemma_entries_map<T>(entries: Seq<(Seq<char>, T)>)
    ensures
        forall|name: Seq<char>| #[trigger]
            entries_map(entries).contains_key(name) <==> exists|i: int|
                0 <= i < entries.len() && #[trigger] entries[i].0 == name,
        distinct_names(entries) ==> forall|i: int|
            0 <= i < entries.len() ==> entries_map(entries)[#[trigger] entries[i].0]
                == entries[i].1,
    decreases entries.len(),
{
    if entries.len() > 0 {
        let front = entries.drop_last();
        lemma_entries_map(front);
        assert forall|name: Seq<char>| #[trigger]
            entries_map(entries).contains_key(name) implies exists|i: int|
            0 <= i < entries.len() && #[trigger] entries[i].0 == name by {
            if name == entries.last().0 {
                assert(entries[entries.len() - 1].0 == name);
            } else {
                assert(entries_map(front).contains_key(name));
                let i = choose|i: int| 0 <= i < front.len() && #[trigger] front[i].0 == name;
                assert(entries[i].0 == name);
            }
        }
        assert forall|name: Seq<char>|
            (exists|i: int|
                0 <= i < entries.len() && #[trigger] entries[i].0 == name) implies #[trigger]
            entries_map(entries).contains_key(name) by {
            let i = choose|i: int| 0 <= i < entries.len() && #[trigger] entries[i].0 == name;
            if i < front.len() {
                assert(front[i].0 == name);
                assert(entries_map(front).contains_key(name));
            } else {
                assert(entries.last().0 == name);
            }
        }
        if distinct_names(entries) {
            assert(distinct_names(front)) by {
                assert forall|i: int, j: int| 0 <= i < j < front.len() implies front[i].0
                    != front[j].0 by {
                    assert(entries[i].0 != entries[j].0);
                }
            }
            assert forall|i: int| 0 <= i < entries.len() implies entries_map(
                entries,
            )[#[trigger] entries[i].0] == entries[i].1 by {
                if i < front.len() {
                    assert(front[i] == entries[i]);
                    assert(entries[i].0 != entries[entries.len() - 1].0);
                }
            }
        }
    }
}

/// Whether `names` lists every key of `map` exactly once.
pub open spec fn enumerates<T>(names: Seq<String>, map: Map<Seq<char>, T>) -> bool {
    &&& forall|i: int, j: int| 0 <= i < j < names.len() ==> names[i]@ != names[j]@
    &&& forall|i: int| 0 <= i < names.len() ==> map.contains_key(#[trigger] names[i]@)
    &&& forall|key: Seq<char>|
        map.contains_key(key) ==> exists|i: int| 0 <= i < names.len() && #[trigger] names[i]@ == key
}

/// A list that pairs every key of a map with the image of its value stands
/// for the map of those images.
pub proof fn lemma_entries_of_keys<S, T>(
    names: Seq<String>,
    map: Map<Seq<char>, S>,
    image: spec_fn(S) -> T,
    entries: Seq<(Seq<char>, T)>,
)
    requires
        enumerates(names, map),
        entries.len() == names.len(),
        forall|i: int|
            0 <= i < entries.len() ==> (#[trigger] entries[i]).0 == names[i]@ && entries[i].1
                == image(map[names[i]@]),
    ensures
        distinct_names(entries),
        entries_map(entries) == map.map_values(image),
{
    lemma_entries_map(entries);
    assert(distinct_names(entries)) by {
        assert forall|i: int, j: int| 0 <= i < j < entries.len() implies entries[i].0
            != entries[j].0 by {
            assert(names[i]@ != names[j]@);
        }
    }
    let stood = entries_map(entries);
    let wanted = map.map_values(image);
    assert forall|key: Seq<char>| stood.contains_key(key) <==> wanted.contains_key(key) by {
        if stood.contains_key(key) {
            let i = choose|i: int| 0 <= i < entries.len() && #[trigger] entries[i].0 == key;
            assert(map.contains_key(names[i]@));
        }
        if wanted.contains_key(key) {
            let i = choose|i: int| 0 <= i < names.len() && #[trigger] names[i]@ == key;
            assert(entries[i].0 == key);
        }
    }
    assert forall|key: Seq<char>| stood.contains_key(key) implies stood[key] == wanted[key] by {
        let i = choose|i: int| 0 <= i < entries.len() && #[trigger] entries[i].0 == key;
        assert(stood[entries[i].0] == entries[i].1);
    }
    assert(stood =~= wanted);
}

} // verus!
