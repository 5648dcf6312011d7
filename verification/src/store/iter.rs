//! Walks over the parameters of a store.
//!
//! A walk hands out every parameter of the store exactly once. What it has
//! yet to hand out is its `pending` sequence: each call of `next` takes the
//! first item off it.

use crate::kind::Datum;
use crate::name::Name;
use crate::store::distinct;
use crate::store::lemma_table_at;
use crate::store::lemma_table_update_any;
use crate::store::place;
use crate::store::table;
use crate::store::Options;
use crate::value::Value;
use vstd::prelude::*;
use vstd::std_specs::iter::IteratorSpec;
use vstd::std_specs::iter::IteratorSpecImpl;
use vstd::std_specs::vec::axiom_spec_len;

verus! {

/// The pairs list the map: each entry of `m` occurs in `pairs`, once, and
/// nothing else does.
pub open spec fn lists(pairs: Seq<(Seq<char>, Datum)>, m: Map<Seq<char>, Datum>) -> bool {
    &&& forall|i: int, j: int| 0 <= i < j < pairs.len() ==> pairs[i].0 != pairs[j].0
    &&& forall|i: int|
        0 <= i < pairs.len() ==> m.contains_key(#[trigger] pairs[i].0) && m[pairs[i].0]
            == pairs[i].1
    &&& forall|name: Seq<char>|
        m.contains_key(name) ==> exists|i: int| 0 <= i < pairs.len() && #[trigger] pairs[i].0 == name
}

/// The names with their cells, from the place `from` on.
spec fn listing(names: Seq<Name>, values: Seq<Value>, from: int) -> Seq<(Seq<char>, Datum)> {
    Seq::new((names.len() - from) as nat, |k: int| (names[from + k]@, values[from + k]@))
}

/// All names with their cells list the table they stand for.
proof fn lemma_lists(names: Seq<Name>, values: Seq<Value>)
    requires
        distinct(names),
        names.len() == values.len(),
    ensures
        lists(listing(names, values, 0), table(names, values)),
{
    let pairs = listing(names, values, 0);
    let m = table(names, values);
    assert forall|i: int| 0 <= i < pairs.len() implies m.contains_key(#[trigger] pairs[i].0)
        && m[pairs[i].0] == pairs[i].1 by {
        lemma_table_at(names, values, i);
    }
    assert forall|name: Seq<char>| m.contains_key(name) implies exists|i: int|
        0 <= i < pairs.len() && #[trigger] pairs[i].0 == name by {
        let i = place(names, name);
        assert(pairs[i].0 == name);
    }
}

/// An iterator over parameters.
pub struct Parameters<'l> {
    store: &'l Options,
    next: usize,
}

/// An iterator over mutable parameters.
pub struct ParametersMut<'l> {
    store: &'l mut Options,
    next: usize,
}

/// An iterator over names.
pub struct Names<'l> {
    store: &'l Options,
    next: usize,
}

impl<'l> Parameters<'l> {
    #[verifier::type_invariant]
    spec fn well_formed(self) -> bool {
        self.next <= self.store.names@.len()
    }

    /// The parameters still to come, each as its name and what its cell
    /// holds, in the order in which they will come.
    pub closed spec fn pending(&self) -> Seq<(Seq<char>, Datum)> {
        listing(self.store.names@, self.store.values@, self.next as int)
    }

    /// What is still to be handed out are the parameters that are still to
    /// come.
    pub proof fn lemma_remaining(&self)
        ensures
            IteratorSpec::remaining(self).len() == self.pending().len(),
            forall|k: int|
                0 <= k < self.pending().len() ==> (
                    IteratorSpec::remaining(self)[k].0@,
                    IteratorSpec::remaining(self)[k].1@,
                ) == self.pending()[k],
    {
    }
}

impl<'l> Iterator for Parameters<'l> {
    type Item = (&'l Name, &'l Value);

    /// Hands out the next parameter, or nothing once every parameter has been
    /// handed out.
    fn next(&mut self) -> (r: Option<(&'l Name, &'l Value)>)
        ensures
            match r {
                Some((name, value)) => {
                    &&& old(self).pending().len() > 0
                    &&& (name@, value@) == old(self).pending()[0]
                    &&& final(self).pending() == old(self).pending().drop_first()
                },
                None => {
                    &&& old(self).pending().len() == 0
                    &&& final(self).pending() == old(self).pending()
                },
            },
    {
        proof {
            use_type_invariant(&*self);
            use_type_invariant(self.store);
        }
        if self.next < self.store.names.len() {
            let k: usize = self.next;
            self.next = k + 1;
            assert(self.pending() =~= old(self).pending().drop_first());
            Some((&self.store.names[k], &self.store.values[k]))
        } else {
            None
        }
    }
}

impl<'l> IteratorSpecImpl for Parameters<'l> {
    open spec fn obeys_prophetic_iter_laws(&self) -> bool {
        true
    }

    closed spec fn remaining(&self) -> Seq<Self::Item> {
        Seq::new(
            (self.store.names@.len() - self.next) as nat,
            |k: int| (&self.store.names@[self.next + k], &self.store.values@[self.next + k]),
        )
    }

    open spec fn will_return_none(&self) -> bool {
        true
    }

    closed spec fn decrease(&self) -> Option<nat> {
        Some((self.store.names@.len() - self.next) as nat)
    }

    open spec fn initial_value_relation(&self, init: &Self) -> bool {
        init.pending() == self.pending()
    }

    open spec fn peek(&self, index: int) -> Option<Self::Item> {
        None
    }
}

impl<'l> ParametersMut<'l> {
    #[verifier::type_invariant]
    spec fn well_formed(self) -> bool {
        self.next <= self.store.names@.len()
    }

    /// The parameters still to come, each as its name and what its cell
    /// holds now, in the order in which they will come.
    pub closed spec fn pending(&self) -> Seq<(Seq<char>, Datum)> {
        listing(self.store.names@, self.store.values@, self.next as int)
    }

    /// What the store holds now, with all that has been written so far.
    pub closed spec fn contents(&self) -> Map<Seq<char>, Datum> {
        self.store@
    }

    /// The borrow of the store that the walk works through.
    pub closed spec fn handle(&self) -> &'l mut Options {
        self.store
    }

    /// Once nothing will be written through the walk any more, the store is
    /// left with what it holds then.
    pub proof fn lemma_ends(self)
        requires
            has_resolved(self),
        ensures
            final(self.handle())@ == self.contents(),
    {
    }

    /// Hands out the next parameter, its cell open for writing, or nothing
    /// once every parameter has been handed out.
    ///
    /// What the borrower leaves in the cell is what the store holds under
    /// that name from then on; nothing else changes. The name and the cell
    /// are lent for as long as the walk is not asked again.
    pub fn next(&mut self) -> (r: Option<(&Name, &mut Value)>)
        ensures
            match r {
                Some((name, value)) => {
                    &&& old(self).pending().len() > 0
                    &&& (name@, value@) == old(self).pending()[0]
                    &&& final(self).pending() == old(self).pending().drop_first()
                    &&& final(self).contents() == old(self).contents().insert(
                        name@,
                        final(value)@,
                    )
                },
                None => {
                    &&& old(self).pending().len() == 0
                    &&& final(self).pending() == old(self).pending()
                    &&& final(self).contents() == old(self).contents()
                },
            },
            *final(final(self).handle()) == *final(old(self).handle()),
    {
        proof {
            use_type_invariant(&*self);
            use_type_invariant(&*self.store);
        }
        if self.next < self.store.names.len() {
            let k: usize = self.next;
            self.next = k + 1;
            proof {
                lemma_table_update_any(self.store.names@, self.store.values@, k as int);
            }
            Some((&self.store.names[k], &mut self.store.values[k]))
        } else {
            None
        }
    }
}

impl<'l> Names<'l> {
    #[verifier::type_invariant]
    spec fn well_formed(self) -> bool {
        self.next <= self.store.names@.len()
    }

    /// The names still to come, in the order in which they will come.
    pub closed spec fn pending(&self) -> Seq<Seq<char>> {
        Seq::new(
            (self.store.names@.len() - self.next) as nat,
            |k: int| self.store.names@[self.next + k]@,
        )
    }

    /// What is still to be handed out are the names that are still to come.
    pub proof fn lemma_remaining(&self)
        ensures
            IteratorSpec::remaining(self).len() == self.pending().len(),
            forall|k: int|
                0 <= k < self.pending().len() ==> IteratorSpec::remaining(self)[k]@
                    == self.pending()[k],
    {
    }
}

impl<'l> Iterator for Names<'l> {
    type Item = &'l Name;

    /// Hands out the next name, or nothing once every name has been handed
    /// out.
    fn next(&mut self) -> (r: Option<&'l Name>)
        ensures
            match r {
                Some(name) => {
                    &&& old(self).pending().len() > 0
                    &&& name@ == old(self).pending()[0]
                    &&& final(self).pending() == old(self).pending().drop_first()
                },
                None => {
                    &&& old(self).pending().len() == 0
                    &&& final(self).pending() == old(self).pending()
                },
            },
    {
        proof {
            use_type_invariant(&*self);
            use_type_invariant(self.store);
        }
        if self.next < self.store.names.len() {
            let k: usize = self.next;
            self.next = k + 1;
            assert(self.pending() =~= old(self).pending().drop_first());
            Some(&self.store.names[k])
        } else {
            None
        }
    }
}

impl<'l> IteratorSpecImpl for Names<'l> {
    open spec fn obeys_prophetic_iter_laws(&self) -> bool {
        true
    }

    closed spec fn remaining(&self) -> Seq<Self::Item> {
        Seq::new(
            (self.store.names@.len() - self.next) as nat,
            |k: int| &self.store.names@[self.next + k],
        )
    }

    open spec fn will_return_none(&self) -> bool {
        true
    }

    closed spec fn decrease(&self) -> Option<nat> {
        Some((self.store.names@.len() - self.next) as nat)
    }

    open spec fn initial_value_relation(&self, init: &Self) -> bool {
        init.pending() == self.pending()
    }

    open spec fn peek(&self, index: int) -> Option<Self::Item> {
        None
    }
}

impl Options {
    /// Return an iterator over parameters.
    ///
    /// Every parameter of the store comes exactly once, as its name and its
    /// cell; in which order is not promised.
    pub fn iter(&self) -> (r: Parameters<'_>)
        ensures
            lists(r.pending(), self@),
            r.pending().len() <= usize::MAX,
            IteratorSpec::decrease(&r) is Some,
            IteratorSpec::initial_value_relation(&r, &r),
    {
        proof {
            use_type_invariant(self);
            axiom_spec_len(&self.names);
            lemma_lists(self.names@, self.values@);
        }
        Parameters { store: self, next: 0 }
    }

    /// Return an iterator over mutable parameters.
    ///
    /// Every parameter of the store comes exactly once, as its name and its
    /// cell, the cell open for writing; in which order is not promised. The
    /// store ends as the walk leaves it.
    pub fn iter_mut(&mut self) -> (r: ParametersMut<'_>)
        ensures
            r.contents() == old(self)@,
            lists(r.pending(), old(self)@),
            r.pending().len() <= usize::MAX,
            *final(self) == *final(r.handle()),
    {
        proof {
            use_type_invariant(&*self);
            axiom_spec_len(&self.names);
            lemma_lists(self.names@, self.values@);
        }
        ParametersMut { store: self, next: 0 }
    }

    /// Return an iterator over names.
    ///
    /// Every name of the store comes exactly once; in which order is not
    /// promised.
    pub fn names(&self) -> (r: Names<'_>)
        ensures
            r.pending().no_duplicates(),
            r.pending().to_set() == self@.dom(),
            r.pending().len() <= usize::MAX,
            IteratorSpec::decrease(&r) is Some,
            IteratorSpec::initial_value_relation(&r, &r),
    {
        proof {
            use_type_invariant(self);
            axiom_spec_len(&self.names);
        }
        let r = Names { store: self, next: 0 };
        proof {
            let p = r.pending();
            assert forall|name: Seq<char>| p.to_set().contains(name) <==> self@.dom().contains(
                name,
            ) by {
                if p.to_set().contains(name) {
                    let k = choose|k: int| 0 <= k < p.len() && p[k] == name;
                    assert(self.names@[k]@ == name);
                }
                if self@.dom().contains(name) {
                    let k = place(self.names@, name);
                    assert(p[k] == name);
                }
            }
            assert(p.to_set() =~= self@.dom());
        }
        r
    }
}

impl<'l> IntoIterator for &'l Options {
    type Item = (&'l Name, &'l Value);

    type IntoIter = Parameters<'l>;

    /// The same walk as `iter` gives.
    fn into_iter(self) -> (r: Parameters<'l>)
        ensures
            lists(r.pending(), self@),
            r.pending().len() <= usize::MAX,
            IteratorSpec::decrease(&r) is Some,
            IteratorSpec::initial_value_relation(&r, &r),
    {
        self.iter()
    }
}

} // verus!
