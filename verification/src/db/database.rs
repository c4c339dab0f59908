//! `Database`: a record store keyed by identifier, with the rules that every
//! stored name is valid and that no identifier is stored twice.

use crate::models::pizza::{valid_pizza_name, Pizza, PizzaView};
use vstd::prelude::*;

verus! {

/// Whether some record of `records` has the identifier `uuid`.
pub open spec fn contains_uuid(records: Seq<PizzaView>, uuid: Seq<char>) -> bool {
    exists|i: int| 0 <= i < records.len() && (#[trigger] records[i]).uuid == uuid
}

/// The record of `records` with the identifier `uuid`, if there is one.
pub open spec fn lookup(records: Seq<PizzaView>, uuid: Seq<char>) -> Option<PizzaView> {
    if contains_uuid(records, uuid) {
        Some(records[choose|i: int| 0 <= i < records.len() && (#[trigger] records[i]).uuid == uuid])
    } else {
        None
    }
}

/// The rules of a store's contents: every name is valid, and no two records
/// share an identifier.
pub open spec fn records_wf(records: Seq<PizzaView>) -> bool {
    &&& forall|i: int| 0 <= i < records.len() ==> valid_pizza_name((#[trigger] records[i]).pizza_name)
    &&& forall|i: int, j: int|
        0 <= i < j < records.len() ==> (#[trigger] records[i]).uuid != (#[trigger] records[j]).uuid
}

/// Whether the store takes `pizza` as a new record: its name is valid and its
/// identifier is not in use.
pub open spec fn insert_accepted(records: Seq<PizzaView>, pizza: PizzaView) -> bool {
    valid_pizza_name(pizza.pizza_name) && !contains_uuid(records, pizza.uuid)
}

/// The contents after an insert of `pizza`: the record is appended where the
/// store takes it, and nothing changes where it does not.
pub open spec fn after_insert(records: Seq<PizzaView>, pizza: PizzaView) -> Seq<PizzaView> {
    if insert_accepted(records, pizza) {
        records.push(pizza)
    } else {
        records
    }
}

/// The views of a vector of records, in order.
pub open spec fn views_of(pizzas: Seq<Pizza>) -> Seq<PizzaView> {
    Seq::new(pizzas.len(), |i: int| pizzas[i]@)
}

/// A record store held in memory, in the order in which the records came.
pub struct Database {
    records: Vec<Pizza>,
}

impl View for Database {
    type V = Seq<PizzaView>;

    closed spec fn view(&self) -> Seq<PizzaView> {
        views_of(self.records@)
    }
}

impl Database {
    /// The invariant of every store: its contents obey `records_wf`.
    #[verifier::type_invariant]
    pub open spec fn inv(&self) -> bool {
        records_wf(self@)
    }

    /// An empty store.
    pub fn init() -> (db: Database)
        ensures
            db@ == Seq::<PizzaView>::empty(),
    {
        let db = Database { records: Vec::new() };
        assert(db@ =~= Seq::<PizzaView>::empty());
        db
    }

    /// The number of records in the store. It also hands the caller the
    /// invariant: the contents obey `records_wf`.
    pub fn len(&self) -> (n: usize)
        ensures
            n == self@.len(),
            records_wf(self@),
    {
        proof {
            use_type_invariant(self);
        }
        self.records.len()
    }

    /// The position of the record with the identifier `uuid`, if any.
    fn position(&self, uuid: &String) -> (found: Option<usize>)
        ensures
            found is Some <==> contains_uuid(self@, uuid@),
            found is Some ==> found->Some_0 < self@.len() && self@[found->Some_0 as int].uuid
                == uuid@,
    {
        let mut i: usize = 0;
        while i < self.records.len()
            invariant
                i <= self.records.len(),
                forall|k: int| 0 <= k < i ==> (#[trigger] self@[k]).uuid != uuid@,
            decreases self.records.len() - i,
        {
            if self.records[i].uuid == *uuid {
                assert(self@[i as int].uuid == uuid@);
                return Some(i);
            }
            i += 1;
        }
        None
    }

    /// A copy of every record in the store, in the order of insertion; `None`
    /// when the store is empty.
    pub fn get_all_pizzas(&self) -> (found: Option<Vec<Pizza>>)
        ensures
            found is None <==> self@.len() == 0,
            found is Some ==> views_of(found->Some_0@) == self@,
    {
        if self.records.len() == 0 {
            return None;
        }
        let mut copies: Vec<Pizza> = Vec::new();
        let mut i: usize = 0;
        while i < self.records.len()
            invariant
                i <= self.records.len(),
                copies@.len() == i,
                forall|k: int| 0 <= k < i ==> (#[trigger] copies@[k])@ == self.records@[k]@,
            decreases self.records.len() - i,
        {
            copies.push(self.records[i].clone());
            i += 1;
        }
        assert(views_of(copies@) =~= self@);
        Some(copies)
    }

    /// Inserts `pizza` under its own identifier. The store takes the record
    /// exactly when its name is valid and its identifier is not in use; it
    /// then returns the stored record. Otherwise the write is rejected, the
    /// store is unchanged and the result is `None`.
    pub fn add_pizza(&mut self, pizza: Pizza) -> (stored: Option<Pizza>)
        ensures
            records_wf(final(self)@),
            final(self)@ == after_insert(old(self)@, pizza@),
            stored is Some <==> insert_accepted(old(self)@, pizza@),
            stored is Some ==> stored->Some_0@ == pizza@,
    {
        proof {
            use_type_invariant(&*self);
        }
        if !pizza.has_valid_name() {
            return None;
        }
        if self.position(&pizza.uuid).is_some() {
            return None;
        }
        let stored = pizza.clone();
        let mut records: Vec<Pizza> = Vec::new();
        core::mem::swap(&mut self.records, &mut records);
        records.push(pizza);
        assert(views_of(records@) =~= old(self)@.push(pizza@));
        core::mem::swap(&mut self.records, &mut records);
        assert(self@ =~= old(self)@.push(pizza@));
        Some(stored)
    }

    /// Looks up the record with the identifier `uuid` and returns it, or
    /// `None` if there is none. The call names no new value for any field, so
    /// the record keeps its name and the store's contents stay as they were.
    pub fn update_pizza(&mut self, uuid: String) -> (updated: Option<Pizza>)
        ensures
            records_wf(final(self)@),
            final(self)@ == old(self)@,
            updated is Some <==> contains_uuid(old(self)@, uuid@),
            updated is Some ==> Some(updated->Some_0@) == lookup(old(self)@, uuid@),
            updated is Some ==> updated->Some_0@.uuid == uuid@,
    {
        proof {
            use_type_invariant(&*self);
        }
        match self.position(&uuid) {
            Some(i) => {
                let found = self.records[i].clone();
                proof {
                    lemma_lookup_at(self@, i as int);
                }
                Some(found)
            },
            None => None,
        }
    }
}

/// An insert keeps the rules of the store's contents.
pub proof fn lemma_insert_keeps_wf(records: Seq<PizzaView>, pizza: PizzaView)
    requires
        records_wf(records),
    ensures
        records_wf(after_insert(records, pizza)),
{
}

/// After an accepted insert the record can be looked up under its identifier,
/// and every record that was there before is still found as it was.
pub proof fn lemma_insert_then_lookup(records: Seq<PizzaView>, pizza: PizzaView, other: Seq<char>)
    requires
        records_wf(records),
        insert_accepted(records, pizza),
    ensures
        lookup(after_insert(records, pizza), pizza.uuid) == Some(pizza),
        other != pizza.uuid ==> lookup(after_insert(records, pizza), other) == lookup(
            records,
            other,
        ),
{
    let after = after_insert(records, pizza);
    lemma_insert_keeps_wf(records, pizza);
    assert(after[records.len() as int] == pizza);
    lemma_lookup_at(after, records.len() as int);
    if other != pizza.uuid {
        if contains_uuid(records, other) {
            let k = choose|k: int| 0 <= k < records.len() && (#[trigger] records[k]).uuid == other;
            assert(after[k] == records[k]);
            lemma_lookup_at(after, k);
            lemma_lookup_at(records, k);
        } else {
            assert forall|k: int| 0 <= k < after.len() implies (#[trigger] after[k]).uuid
                != other by {
                if k < records.len() {
                    assert(after[k] == records[k]);
                }
            }
        }
    }
}

/// In well-formed contents, the record at a position is the one found under
/// its identifier.
pub proof fn lemma_lookup_at(records: Seq<PizzaView>, i: int)
    requires
        records_wf(records),
        0 <= i < records.len(),
    ensures
        contains_uuid(records, records[i].uuid),
        lookup(records, records[i].uuid) == Some(records[i]),
{
    let uuid = records[i].uuid;
    assert(contains_uuid(records, uuid));
    let k = choose|k: int| 0 <= k < records.len() && (#[trigger] records[k]).uuid == uuid;
    if k < i {
        assert(records[k].uuid != records[i].uuid);
    } else if i < k {
        assert(records[i].uuid != records[k].uuid);
    }
}

} // verus!
