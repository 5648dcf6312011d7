//! The parameter store.

use crate::kind::Datum;
use crate::name::same_name;
use crate::name::Name;
use crate::value::Storable;
use crate::value::Value;
use vstd::prelude::*;

pub mod iter;

verus! {

/// A collection of named parameters.
///
/// Every name occurs at most once. As a mathematical object the store is a
/// finite map from names to what their cells hold; the order in which the
/// parameters were set is not part of it.
#[derive(Debug)]
pub struct Options {
    /// The names, each once.
    names: Vec<Name>,
    /// The cells: the one at a place belongs to the name at that place.
    values: Vec<Value>,
}

/// What a request for a `T` under `name` finds in a store that stands for
/// `m`: what the cell under that name holds, if there is one and it holds a
/// `T`. A missing name and a value of another type look the same.
pub open spec fn found<T: Storable>(m: Map<Seq<char>, Datum>, name: Seq<char>) -> Option<Datum> {
    if m.contains_key(name) && m[name].kind() == T::kind() {
        Some(m[name])
    } else {
        None
    }
}

/// No name occurs twice.
spec fn distinct(names: Seq<Name>) -> bool {
    forall|i: int, j: int| 0 <= i < j < names.len() ==> names[i]@ != names[j]@
}

/// The name `name` occurs.
spec fn occurs(names: Seq<Name>, name: Seq<char>) -> bool {
    exists|i: int| 0 <= i < names.len() && names[i]@ == name
}

/// A place at which `name` occurs.
spec fn place(names: Seq<Name>, name: Seq<char>) -> int {
    choose|i: int| 0 <= i < names.len() && names[i]@ == name
}

/// The map that names and cells stand for.
spec fn table(names: Seq<Name>, values: Seq<Value>) -> Map<Seq<char>, Datum> {
    Map::new(|name: Seq<char>| occurs(names, name), |name: Seq<char>| values[place(names, name)]@)
}

/// Each name is in the table, with the cell at its place.
proof fn lemma_table_at(names: Seq<Name>, values: Seq<Value>, i: int)
    requires
        distinct(names),
        0 <= i < names.len(),
    ensures
        table(names, values).contains_key(names[i]@),
        table(names, values)[names[i]@] == values[i]@,
{
    assert(occurs(names, names[i]@));
}

/// Adding a new name with its cell adds them to the table.
proof fn lemma_table_push(names: Seq<Name>, values: Seq<Value>, name: Name, value: Value)
    requires
        distinct(names),
        names.len() == values.len(),
        !occurs(names, name@),
    ensures
        distinct(names.push(name)),
        table(names.push(name), values.push(value)) == table(names, values).insert(
            name@,
            value@,
        ),
{
    let ns = names.push(name);
    let vs = values.push(value);
    assert(distinct(ns)) by {
        assert forall|i: int, j: int| 0 <= i < j < ns.len() implies ns[i]@ != ns[j]@ by {
            if j == names.len() {
                assert(names[i]@ != name@);
            }
        }
    }
    assert forall|n: Seq<char>| occurs(ns, n) <==> (n == name@ || occurs(names, n)) by {
        if occurs(ns, n) {
            let i = place(ns, n);
            if i < names.len() {
                assert(names[i]@ == n);
            }
        }
        if n == name@ {
            assert(ns[names.len() as int]@ == n);
        }
        if occurs(names, n) {
            let i = place(names, n);
            assert(ns[i]@ == n);
        }
    }
    assert forall|n: Seq<char>| occurs(ns, n) implies table(ns, vs)[n] == table(
        names,
        values,
    ).insert(name@, value@)[n] by {
        let i = place(ns, n);
        if n != name@ {
            let j = place(names, n);
            assert(ns[j]@ == n);
        }
    }
    assert(table(ns, vs) =~= table(names, values).insert(name@, value@));
}

/// Replacing the cell at a place replaces it in the table, under the name at
/// that place.
proof fn lemma_table_update(names: Seq<Name>, values: Seq<Value>, i: int, value: Value)
    requires
        distinct(names),
        names.len() == values.len(),
        0 <= i < names.len(),
    ensures
        table(names, values.update(i, value)) == table(names, values).insert(names[i]@, value@),
{
    let vs = values.update(i, value);
    assert(occurs(names, names[i]@));
    assert forall|n: Seq<char>| occurs(names, n) implies table(names, vs)[n] == table(
        names,
        values,
    ).insert(names[i]@, value@)[n] by {
        assert(names[place(names, n)]@ == n);
    }
    assert(table(names, vs) =~= table(names, values).insert(names[i]@, value@));
}

/// The same, for whatever cell comes to stand at the place.
proof fn lemma_table_update_any(names: Seq<Name>, values: Seq<Value>, i: int)
    requires
        distinct(names),
        names.len() == values.len(),
        0 <= i < names.len(),
    ensures
        forall|value: Value|
            table(names, #[trigger] values.update(i, value)) == table(names, values).insert(
                names[i]@,
                value@,
            ),
{
    assert forall|value: Value|
        table(names, #[trigger] values.update(i, value)) == table(names, values).insert(
            names[i]@,
            value@,
        ) by {
        lemma_table_update(names, values, i, value);
    }
}

impl View for Options {
    type V = Map<Seq<char>, Datum>;

    closed spec fn view(&self) -> Map<Seq<char>, Datum> {
        table(self.names@, self.values@)
    }
}

impl Options {
    #[verifier::type_invariant]
    spec fn well_formed(self) -> bool {
        self.names@.len() == self.values@.len() && distinct(self.names@)
    }

    /// Create a collection of named parameters.
    ///
    /// The new store is empty.
    pub fn new() -> (r: Options)
        ensures
            r@ == Map::<Seq<char>, Datum>::empty(),
    {
        let r = Options { names: Vec::new(), values: Vec::new() };
        assert(r@ =~= Map::<Seq<char>, Datum>::empty());
        r
    }

    /// The place at which `name` occurs, if it does.
    fn find(&self, name: &str) -> (r: Option<usize>)
        ensures
            match r {
                Some(i) => i < self.names@.len() && self.names@[i as int]@ == name@,
                None => !occurs(self.names@, name@),
            },
    {
        let mut i: usize = 0;
        while i < self.names.len()
            invariant
                i <= self.names@.len(),
                forall|k: int| 0 <= k < i ==> self.names@[k]@ != name@,
            decreases self.names@.len() - i,
        {
            if same_name(self.names[i].as_str(), name) {
                return Some(i);
            }
            i += 1;
        }
        None
    }

    /// Get the value of a parameter.
    ///
    /// Gives a duplicate of the value under `name` if there is one and it is
    /// a `T`. A name that was never set and a value of another type both give
    /// nothing.
    pub fn get<T: Storable>(&self, name: &str) -> (r: Option<T>)
        ensures
            r is Some <==> found::<T>(self@, name@) is Some,
            r matches Some(x) ==> Some(x.datum()) == found::<T>(self@, name@),
    {
        proof {
            use_type_invariant(self);
        }
        match self.find(name) {
            Some(i) => {
                proof {
                    lemma_table_at(self.names@, self.values@, i as int);
                }
                self.values[i].get::<T>()
            },
            None => None,
        }
    }

    /// Get a reference to the value of a parameter.
    ///
    /// Lends the value under `name` if there is one and it is a `T`. A name
    /// that was never set and a value of another type both give nothing.
    pub fn get_ref<T: Storable>(&self, name: &str) -> (r: Option<&T>)
        ensures
            r is Some <==> found::<T>(self@, name@) is Some,
            r matches Some(x) ==> Some(x.datum()) == found::<T>(self@, name@),
    {
        proof {
            use_type_invariant(self);
        }
        match self.find(name) {
            Some(i) => {
                proof {
                    lemma_table_at(self.names@, self.values@, i as int);
                }
                self.values[i].get_ref::<T>()
            },
            None => None,
        }
    }

    /// Get a mutable reference to the value of a parameter.
    ///
    /// Lends the value under `name` for writing if there is one and it is a
    /// `T`; what the borrower leaves there is what the store holds under
    /// `name` afterwards, and nothing else changes. Where nothing is lent the
    /// store stays as it is.
    pub fn get_mut<T: Storable>(&mut self, name: &str) -> (r: Option<&mut T>)
        ensures
            r is Some <==> found::<T>(old(self)@, name@) is Some,
            match r {
                Some(x) => {
                    &&& Some(x.datum()) == found::<T>(old(self)@, name@)
                    &&& final(self)@ == old(self)@.insert(name@, final(x).datum())
                },
                None => final(self)@ == old(self)@,
            },
    {
        proof {
            use_type_invariant(&*self);
        }
        match self.find(name) {
            Some(i) => {
                proof {
                    lemma_table_at(self.names@, self.values@, i as int);
                    lemma_table_update_any(self.names@, self.values@, i as int);
                }
                self.values[i].get_mut::<T>()
            },
            None => None,
        }
    }

    /// Set the value of a parameter.
    ///
    /// Afterwards the store holds `value` under `name`, whatever was there
    /// before and of whatever type; the other parameters are untouched. The
    /// store itself is handed back, so that calls can be chained: what is
    /// done through the handle is done to the store.
    pub fn set<T: Storable>(&mut self, name: &str, value: T) -> (r: &mut Options)
        ensures
            r@ == old(self)@.insert(name@, value.datum()),
            *final(self) == *final(r),
    {
        proof {
            use_type_invariant(&*self);
        }
        let cell = value.into_value();
        match self.find(name) {
            Some(i) => {
                proof {
                    lemma_table_update_any(self.names@, self.values@, i as int);
                }
                self.values[i] = cell;
            },
            None => {
                // Names and cells grow together: both are taken out of the
                // store, extended, and put back as one.
                let mut whole = Options::new();
                core::mem::swap(self, &mut whole);
                let Options { mut names, mut values } = whole;
                let owned = name.to_owned();
                proof {
                    lemma_table_push(names@, values@, owned, cell);
                }
                names.push(owned);
                values.push(cell);
                *self = Options { names, values };
            },
        }
        self
    }

    /// Check the presence of a parameter.
    ///
    /// Whether there is a value under `name`, of whatever type.
    pub fn has(&self, name: &str) -> (r: bool)
        ensures
            r == self@.contains_key(name@),
    {
        self.find(name).is_some()
    }
}

} // verus!
