//! What holds of every store, whatever was done to it.
//!
//! The laws speak of a store by the map it stands for, and of the operations
//! by what their contracts say of that map.

use crate::kind::Datum;
use crate::store::found;
use crate::value::Storable;
use vstd::prelude::*;

verus! {

/// The map that a store stands for after the given values were stored under
/// the given names, one after the other, starting from an empty store.
pub open spec fn after_sets(steps: Seq<(Seq<char>, Datum)>) -> Map<Seq<char>, Datum>
    decreases steps.len(),
{
    if steps.len() == 0 {
        Map::empty()
    } else {
        after_sets(steps.drop_last()).insert(steps.last().0, steps.last().1)
    }
}

/// Right after a value is set under a name, a request for its type under
/// that name finds it.
pub proof fn law_set_then_get<T: Storable>(before: Map<Seq<char>, Datum>, name: Seq<char>, value: T)
    ensures
        found::<T>(before.insert(name, value.datum()), name) == Some(value.datum()),
{
    value.lemma_kind();
}

/// After a value is set under a name, a request for any other type under
/// that name finds nothing, though the name is there.
pub proof fn law_other_type_finds_nothing<T: Storable, U: Storable>(
    before: Map<Seq<char>, Datum>,
    name: Seq<char>,
    value: T,
)
    requires
        T::kind() != U::kind(),
    ensures
        found::<U>(before.insert(name, value.datum()), name) is None,
        before.insert(name, value.datum()).contains_key(name),
{
    value.lemma_kind();
}

/// A borrowed string and an owned string are values of different types,
/// whatever they spell.
pub proof fn law_borrowed_and_owned_strings_differ(borrowed: &'static str, owned: String)
    ensures
        <&'static str as Storable>::kind() != <String as Storable>::kind(),
        borrowed.datum() != owned.datum(),
{
}

/// A store holds exactly the names that were set: a name that was never set
/// is not there, and each one that was set is.
pub proof fn law_names_are_those_set(steps: Seq<(Seq<char>, Datum)>, name: Seq<char>)
    ensures
        after_sets(steps).contains_key(name) <==> exists|i: int|
            0 <= i < steps.len() && #[trigger] steps[i].0 == name,
    decreases steps.len(),
{
    if steps.len() > 0 {
        let front = steps.drop_last();
        law_names_are_those_set(front, name);
        if after_sets(steps).contains_key(name) {
            if name == steps.last().0 {
                assert(steps[steps.len() - 1].0 == name);
            } else {
                let i = choose|i: int| 0 <= i < front.len() && #[trigger] front[i].0 == name;
                assert(steps[i].0 == name);
            }
        }
        if exists|i: int| 0 <= i < steps.len() && #[trigger] steps[i].0 == name {
            let i = choose|i: int| 0 <= i < steps.len() && #[trigger] steps[i].0 == name;
            if i < front.len() {
                assert(front[i].0 == name);
            }
        }
    }
}

/// A walk over the names of a store hands out each name that was set, once,
/// and no other.
pub proof fn law_names_come_once(
    steps: Seq<(Seq<char>, Datum)>,
    listed: Seq<Seq<char>>,
    name: Seq<char>,
)
    requires
        listed.no_duplicates(),
        listed.to_set() == after_sets(steps).dom(),
    ensures
        listed.contains(name) <==> exists|i: int|
            0 <= i < steps.len() && #[trigger] steps[i].0 == name,
        forall|i: int, j: int|
            0 <= i < listed.len() && 0 <= j < listed.len() && listed[i] == name && listed[j]
                == name ==> i == j,
{
    law_names_are_those_set(steps, name);
    assert(listed.contains(name) <==> listed.to_set().contains(name));
}

/// Setting a name twice leaves the store as if only the second value had
/// been set.
pub proof fn law_overwrite<T: Storable, U: Storable>(
    before: Map<Seq<char>, Datum>,
    name: Seq<char>,
    first: T,
    second: U,
)
    ensures
        before.insert(name, first.datum()).insert(name, second.datum()) == before.insert(
            name,
            second.datum(),
        ),
{
    assert(before.insert(name, first.datum()).insert(name, second.datum()) =~= before.insert(
        name,
        second.datum(),
    ));
}

/// What is written through a mutable borrow of a value is what a later
/// request under the same name finds, and the other names keep what they had.
pub proof fn law_write_then_get<T: Storable>(
    before: Map<Seq<char>, Datum>,
    name: Seq<char>,
    written: T,
    other: Seq<char>,
)
    requires
        found::<T>(before, name) is Some,
    ensures
        found::<T>(before.insert(name, written.datum()), name) == Some(written.datum()),
        before.insert(name, written.datum()).dom() == before.dom(),
        other != name ==> found::<T>(before.insert(name, written.datum()), other) == found::<T>(
            before,
            other,
        ),
{
    written.lemma_kind();
    assert(before.insert(name, written.datum()).dom() =~= before.dom());
}

/// Two requests for the same type under the same name, with nothing done to
/// the store in between, give equal results.
pub proof fn law_get_repeats<T: Storable>(
    store: Map<Seq<char>, Datum>,
    name: Seq<char>,
    first: Option<T>,
    second: Option<T>,
)
    requires
        first is Some <==> found::<T>(store, name) is Some,
        first matches Some(x) ==> Some(x.datum()) == found::<T>(store, name),
        second is Some <==> found::<T>(store, name) is Some,
        second matches Some(y) ==> Some(y.datum()) == found::<T>(store, name),
    ensures
        first is Some <==> second is Some,
        first matches Some(x) ==> second matches Some(y) && x.datum() == y.datum(),
{
}

} // verus!
