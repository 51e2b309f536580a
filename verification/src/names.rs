//! Extension and layer names, modelled as sequences of characters.

use vstd::prelude::*;

verus! {

/// The character sequences that a list of names stands for, in order.
pub open spec fn names_of(v: Seq<String>) -> Seq<Seq<char>> {
    v.map_values(|s: String| s@)
}

/// `names` with `name` registered: unchanged where it is already listed,
/// otherwise with `name` appended at the end.
pub open spec fn with_name(names: Seq<Seq<char>>, name: Seq<char>) -> Seq<Seq<char>> {
    if names.contains(name) {
        names
    } else {
        names.push(name)
    }
}

/// Whether `name` is one of `names`.
pub fn contains_name(names: &Vec<String>, name: &String) -> (found: bool)
    ensures
        found == names_of(names@).contains(name@),
{
    let mut i: usize = 0;
    while i < names.len()
        invariant
            i <= names.len(),
            forall|j: int| 0 <= j < i ==> names_of(names@)[j] != name@,
        decreases names.len() - i,
    {
        if names[i] == *name {
            assert(names_of(names@)[i as int] == name@);
            return true;
        }
        i += 1;
    }
    false
}

/// A copy of `names` that stands for the same character sequences.
pub fn clone_names(names: &Vec<String>) -> (copy: Vec<String>)
    ensures
        names_of(copy@) == names_of(names@),
{
    let mut copy: Vec<String> = Vec::new();
    let mut i: usize = 0;
    while i < names.len()
        invariant
            i <= names.len(),
            copy@.len() == i,
            forall|j: int| 0 <= j < i ==> copy@[j]@ == names@[j]@,
        decreases names.len() - i,
    {
        let item = names[i].clone();
        copy.push(item);
        i += 1;
    }
    assert(names_of(copy@) =~= names_of(names@));
    copy
}

/// `names` with every name listed once, at the place where it first occurs.
pub open spec fn without_duplicates(names: Seq<Seq<char>>) -> Seq<Seq<char>>
    decreases names.len(),
{
    if names.len() == 0 {
        names
    } else {
        with_name(without_duplicates(names.drop_last()), names.last())
    }
}

/// Drops every name that occurred before in the list: each name stays once,
/// in the order of first occurrence.
pub fn dedup_names(names: &Vec<String>) -> (kept: Vec<String>)
    ensures
        names_of(kept@) == without_duplicates(names_of(names@)),
        names_of(kept@).no_duplicates(),
        forall|name: Seq<char>|
            names_of(kept@).contains(name) <==> names_of(names@).contains(name),
{
    let mut kept: Vec<String> = Vec::new();
    let mut i: usize = 0;
    while i < names.len()
        invariant
            i <= names.len(),
            names_of(kept@) == without_duplicates(names_of(names@).take(i as int)),
        decreases names.len() - i,
    {
        let ghost before = names_of(kept@);
        let ghost upto = names_of(names@).take(i + 1);
        assert(upto.drop_last() =~= names_of(names@).take(i as int));
        assert(upto.last() == names@[i as int]@);
        if !contains_name(&kept, &names[i]) {
            let item = names[i].clone();
            kept.push(item);
            assert(names_of(kept@) =~= before.push(names@[i as int]@));
        }
        i += 1;
    }
    assert(names_of(names@).take(names.len() as int) =~= names_of(names@));
    proof {
        lemma_without_duplicates(names_of(names@));
    }
    kept
}

/// `without_duplicates(names)` lists no name twice, lists exactly the names
/// that `names` lists, and is no longer than `names`.
pub proof fn lemma_without_duplicates(names: Seq<Seq<char>>)
    ensures
        without_duplicates(names).no_duplicates(),
        without_duplicates(names).len() <= names.len(),
        forall|name: Seq<char>|
            #![trigger without_duplicates(names).contains(name)]
            #![trigger names.contains(name)]
            without_duplicates(names).contains(name) <==> names.contains(name),
    decreases names.len(),
{
    if names.len() > 0 {
        let front = names.drop_last();
        let kept = without_duplicates(front);
        lemma_without_duplicates(front);
        lemma_with_name_once(kept, names.last());
        lemma_with_name_keeps_order(kept, names.last());
        assert forall|name: Seq<char>|
            without_duplicates(names).contains(name) <==> names.contains(name) by {
            let all = with_name(kept, names.last());
            if names.contains(name) {
                let i = choose|i: int| 0 <= i < names.len() && names[i] == name;
                if i < front.len() {
                    assert(front[i] == name);
                    assert(front.contains(name));
                    assert(kept.contains(name));
                    let j = choose|j: int| 0 <= j < kept.len() && kept[j] == name;
                    assert(all.take(kept.len() as int)[j] == name);
                    assert(all[j] == name);
                }
            }
            if all.contains(name) {
                let j = choose|j: int| 0 <= j < all.len() && all[j] == name;
                if j < kept.len() {
                    assert(all.take(kept.len() as int)[j] == name);
                    assert(kept.contains(name));
                    assert(front.contains(name));
                    let i = choose|i: int| 0 <= i < front.len() && front[i] == name;
                    assert(names[i] == name);
                } else {
                    assert(names[names.len() - 1] == name);
                }
            }
        }
    }
}

/// A list that names nothing twice is left as it is.
pub proof fn lemma_without_duplicates_keeps(names: Seq<Seq<char>>)
    requires
        names.no_duplicates(),
    ensures
        without_duplicates(names) == names,
    decreases names.len(),
{
    if names.len() > 0 {
        let front = names.drop_last();
        lemma_without_duplicates_keeps(front);
        if front.contains(names.last()) {
            let i = choose|i: int| 0 <= i < front.len() && front[i] == names.last();
            assert(names[i] == names[names.len() - 1]);
        }
        assert(front.push(names.last()) =~= names);
    }
}

/// Removing the duplicates a second time changes nothing.
pub proof fn lemma_without_duplicates_twice(names: Seq<Seq<char>>)
    ensures
        without_duplicates(without_duplicates(names)) == without_duplicates(names),
{
    lemma_without_duplicates(names);
    lemma_without_duplicates_keeps(without_duplicates(names));
}

/// The name of the layer that drivers for laptops with two GPUs install.
pub open spec fn optimus_layer() -> Seq<char> {
    "VK_LAYER_NV_optimus"@
}

/// Whether the layer for laptops with two GPUs is among the instance layers,
/// by its exact name.
pub fn has_nv_optimus(layers: &Vec<String>) -> (found: bool)
    ensures
        found == names_of(layers@).contains(optimus_layer()),
{
    let name = "VK_LAYER_NV_optimus".to_owned();
    contains_name(layers, &name)
}

/// The names of `first` followed by those of `second`.
pub fn join_names(first: &Vec<String>, second: &Vec<String>) -> (joined: Vec<String>)
    ensures
        names_of(joined@) == names_of(first@) + names_of(second@),
{
    let mut joined = clone_names(first);
    let mut i: usize = 0;
    assert(names_of(joined@) =~= names_of(first@) + names_of(second@).take(0));
    while i < second.len()
        invariant
            i <= second.len(),
            names_of(joined@) == names_of(first@) + names_of(second@).take(i as int),
        decreases second.len() - i,
    {
        let ghost before = names_of(joined@);
        let item = second[i].clone();
        joined.push(item);
        assert(names_of(joined@) =~= before.push(second@[i as int]@));
        assert(before.push(second@[i as int]@) =~= names_of(first@) + names_of(second@).take(
            i + 1,
        ));
        i += 1;
    }
    assert(names_of(second@).take(second.len() as int) =~= names_of(second@));
    joined
}

/// Registering a name a second time changes nothing.
pub proof fn lemma_with_name_twice(names: Seq<Seq<char>>, name: Seq<char>)
    ensures
        with_name(with_name(names, name), name) == with_name(names, name),
{
    if !names.contains(name) {
        assert(names.push(name)[names.len() as int] == name);
    }
}

/// After a name is registered, the list holds it exactly once, provided
/// that no name was listed twice before; and then none is listed twice after.
pub proof fn lemma_with_name_once(names: Seq<Seq<char>>, name: Seq<char>)
    requires
        names.no_duplicates(),
    ensures
        with_name(names, name).no_duplicates(),
        with_name(names, name).contains(name),
        forall|i: int, j: int|
            0 <= i < with_name(names, name).len() && 0 <= j < with_name(names, name).len()
                && with_name(names, name)[i] == name && with_name(names, name)[j] == name ==> i
                == j,
{
    if !names.contains(name) {
        assert(names.push(name)[names.len() as int] == name);
    }
}

/// Registering a name leaves the names listed before where they were, and a
/// new name goes behind them all.
pub proof fn lemma_with_name_keeps_order(names: Seq<Seq<char>>, name: Seq<char>)
    ensures
        names.len() <= with_name(names, name).len() <= names.len() + 1,
        with_name(names, name).take(names.len() as int) == names,
        !names.contains(name) ==> with_name(names, name).last() == name,
{
    assert(with_name(names, name).take(names.len() as int) =~= names);
}

} // verus!
