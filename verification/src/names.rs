//! Looking a name up in a list of names: the store and the draw queue both key
//! their entries by name.

use vstd::prelude::*;

verus! {

/// The views of `names`, in order.
pub open spec fn name_views(names: Seq<String>) -> Seq<Seq<char>> {
    Seq::new(names.len(), |i: int| names[i]@)
}

/// Whether `i` is the first place at which `names` holds `name`.
pub open spec fn is_first(names: Seq<Seq<char>>, name: Seq<char>, i: int) -> bool {
    &&& 0 <= i < names.len()
    &&& names[i] == name
    &&& forall|j: int| 0 <= j < i ==> names[j] != name
}

/// The first place at which `names` holds `name`, if any.
pub open spec fn lookup(names: Seq<Seq<char>>, name: Seq<char>) -> Option<int> {
    if exists|i: int| is_first(names, name, i) {
        Some(choose|i: int| is_first(names, name, i))
    } else {
        None
    }
}

/// No name occurs twice.
pub open spec fn distinct(names: Seq<Seq<char>>) -> bool {
    forall|i: int, j: int| 0 <= i < j < names.len() ==> names[i] != names[j]
}

/// A place that is the first to hold `name` is what `lookup` gives.
pub proof fn lemma_lookup_found(names: Seq<Seq<char>>, name: Seq<char>, i: int)
    requires
        is_first(names, name, i),
    ensures
        lookup(names, name) == Some(i),
{
    let k = choose|k: int| is_first(names, name, k);
    assert(is_first(names, name, k));
    if k < i {
        assert(names[k] != name);
    } else if i < k {
        assert(names[i] != name);
    }
}

/// Where no place holds `name`, `lookup` gives nothing.
pub proof fn lemma_lookup_absent(names: Seq<Seq<char>>, name: Seq<char>)
    requires
        forall|j: int| 0 <= j < names.len() ==> names[j] != name,
    ensures
        lookup(names, name) is None,
{
}

/// What `lookup` gives is a place that holds `name`; where it gives nothing,
/// no place does.
pub proof fn lemma_lookup_sound(names: Seq<Seq<char>>, name: Seq<char>)
    ensures
        match lookup(names, name) {
            Some(i) => is_first(names, name, i),
            None => forall|j: int| 0 <= j < names.len() ==> names[j] != name,
        },
{
    if exists|i: int| is_first(names, name, i) {
    } else {
        assert forall|j: int| 0 <= j < names.len() implies names[j] != name by {
            lemma_no_first(names, name, j);
        }
    }
}

/// Where a place up to `j` holds `name`, some place is the first to hold it.
proof fn lemma_no_first(names: Seq<Seq<char>>, name: Seq<char>, j: int)
    requires
        0 <= j < names.len(),
        !exists|i: int| is_first(names, name, i),
    ensures
        names[j] != name,
    decreases j,
{
    if names[j] == name {
        if forall|k: int| 0 <= k < j ==> names[k] != name {
            assert(is_first(names, name, j));
        } else {
            let k = choose|k: int| 0 <= k < j && names[k] == name;
            lemma_no_first(names, name, k);
        }
    }
}

/// Adding a name at the end changes no lookup of a name that was held, and
/// makes the new name found at the new place if it was not held.
pub proof fn lemma_lookup_push(names: Seq<Seq<char>>, added: Seq<char>, name: Seq<char>)
    ensures
        lookup(names, name) is Some ==> lookup(names.push(added), name) == lookup(names, name),
        lookup(names, name) is None && name == added ==> lookup(names.push(added), name) == Some(
            names.len() as int,
        ),
        lookup(names, name) is None && name != added ==> lookup(names.push(added), name) is None,
{
    lemma_lookup_sound(names, name);
    let longer = names.push(added);
    match lookup(names, name) {
        Some(i) => {
            assert(is_first(longer, name, i));
            lemma_lookup_found(longer, name, i);
        },
        None => {
            if name == added {
                assert(is_first(longer, name, names.len() as int));
                lemma_lookup_found(longer, name, names.len() as int);
            } else {
                assert forall|j: int| 0 <= j < longer.len() implies longer[j] != name by {}
                lemma_lookup_absent(longer, name);
            }
        },
    }
}

/// Finds the first place at which `names` holds `name`.
pub fn find_name(names: &Vec<String>, name: &str) -> (found: Option<usize>)
    ensures
        match found {
            Some(i) => lookup(name_views(names@), name@) == Some(i as int),
            None => lookup(name_views(names@), name@) is None,
        },
{
    let wanted = name.to_owned();
    let mut i: usize = 0;
    while i < names.len()
        invariant
            i <= names.len(),
            wanted@ == name@,
            forall|j: int| 0 <= j < i ==> name_views(names@)[j] != name@,
        decreases names.len() - i,
    {
        if names[i] == wanted {
            proof {
                assert(name_views(names@)[i as int] == name@);
                lemma_lookup_found(name_views(names@), name@, i as int);
            }
            return Some(i);
        }
        i += 1;
    }
    proof {
        lemma_lookup_absent(name_views(names@), name@);
    }
    None
}

} // verus!
