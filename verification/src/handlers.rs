//! The three request handlers: list, create and update. Each maps one
//! request, and the state of the store, to a success value or a `PizzaError`.
//!
//! The decisions that follow a store's answer stand in functions of their
//! own (`list_outcome`, `creation_outcome`, `update_outcome`), so that a
//! service whose store is reached over a network can make the same decisions
//! around its own calls.

use crate::db::database::{
    after_insert, contains_uuid, insert_accepted, lemma_insert_keeps_wf, lemma_insert_then_lookup,
    lookup, records_wf, views_of, Database,
};
use crate::error::pizza_error::PizzaError;
use crate::ident::{fresh_identifier, is_identifier};
use crate::models::pizza::{valid_pizza_name, BuyPizzaRequest, Pizza, PizzaView, UpdatePizzaUrl};
use vstd::prelude::*;

verus! {

/// What a list request returns on a store with the contents `records`.
pub open spec fn list_result(records: Seq<PizzaView>) -> Result<Seq<PizzaView>, PizzaError> {
    if records.len() == 0 {
        Err(PizzaError::NoPizzasFound)
    } else {
        Ok(records)
    }
}

/// The record that a create request for `name` builds under `uuid`.
pub open spec fn requested_pizza(name: Seq<char>, uuid: Seq<char>) -> PizzaView {
    PizzaView { uuid, pizza_name: name }
}

/// What a create request for `name` returns when the new record gets the
/// identifier `uuid`, on a store with the contents `records`.
pub open spec fn create_result(records: Seq<PizzaView>, name: Seq<char>, uuid: Seq<char>) -> Result<
    PizzaView,
    PizzaError,
> {
    if insert_accepted(records, requested_pizza(name, uuid)) {
        Ok(requested_pizza(name, uuid))
    } else {
        Err(PizzaError::PizzaCreationFailure)
    }
}

/// The contents of the store after that create request.
pub open spec fn after_create(records: Seq<PizzaView>, name: Seq<char>, uuid: Seq<char>) -> Seq<
    PizzaView,
> {
    after_insert(records, requested_pizza(name, uuid))
}

/// What an update request for `uuid` returns on a store with the contents
/// `records`.
pub open spec fn update_result(records: Seq<PizzaView>, uuid: Seq<char>) -> Result<
    PizzaView,
    PizzaError,
> {
    match lookup(records, uuid) {
        Some(pizza) => Ok(pizza),
        None => Err(PizzaError::NoSuchPizzaFound),
    }
}

/// The view of a handler's answer that carries one record.
pub open spec fn pizza_answer(answer: Result<Pizza, PizzaError>) -> Result<PizzaView, PizzaError> {
    match answer {
        Ok(pizza) => Ok(pizza@),
        Err(e) => Err(e),
    }
}

/// The view of a handler's answer that carries a list of records.
pub open spec fn list_answer(answer: Result<Vec<Pizza>, PizzaError>) -> Result<
    Seq<PizzaView>,
    PizzaError,
> {
    match answer {
        Ok(pizzas) => Ok(views_of(pizzas@)),
        Err(e) => Err(e),
    }
}

/// Decides the answer to a list request from what the store returned: the
/// records where there are any, `NoPizzasFound` where the store returned
/// nothing or an empty list.
pub fn list_outcome(found: Option<Vec<Pizza>>) -> (answer: Result<Vec<Pizza>, PizzaError>)
    ensures
        answer is Ok <==> found is Some && found->Some_0@.len() > 0,
        answer is Ok ==> answer->Ok_0 == found->Some_0,
        answer is Err ==> answer->Err_0 == PizzaError::NoPizzasFound,
{
    match found {
        Some(pizzas) => {
            if pizzas.len() == 0 {
                Err(PizzaError::NoPizzasFound)
            } else {
                Ok(pizzas)
            }
        },
        None => Err(PizzaError::NoPizzasFound),
    }
}

/// Validates a create request and builds the record to insert under the
/// identifier `uuid`: the record with the requested name where the request
/// is valid, `PizzaCreationFailure` where it is not.
pub fn checked_pizza(body: &BuyPizzaRequest, uuid: String) -> (answer: Result<Pizza, PizzaError>)
    ensures
        answer is Ok <==> body.is_valid(),
        answer is Ok ==> answer->Ok_0@ == requested_pizza(body@, uuid@),
        answer is Err ==> answer->Err_0 == PizzaError::PizzaCreationFailure,
{
    match body.validate() {
        Ok(_) => Ok(Pizza::new(uuid, body.pizza_name.clone())),
        Err(_) => Err(PizzaError::PizzaCreationFailure),
    }
}

/// Decides the answer to a create request from what the store returned: the
/// stored record, or `PizzaCreationFailure` where the store took none.
pub fn creation_outcome(stored: Option<Pizza>) -> (answer: Result<Pizza, PizzaError>)
    ensures
        answer is Ok <==> stored is Some,
        answer is Ok ==> answer->Ok_0 == stored->Some_0,
        answer is Err ==> answer->Err_0 == PizzaError::PizzaCreationFailure,
{
    match stored {
        Some(created) => Ok(created),
        None => Err(PizzaError::PizzaCreationFailure),
    }
}

/// Decides the answer to an update request from what the store returned: the
/// updated record, or `NoSuchPizzaFound` where the store found none.
pub fn update_outcome(found: Option<Pizza>) -> (answer: Result<Pizza, PizzaError>)
    ensures
        answer is Ok <==> found is Some,
        answer is Ok ==> answer->Ok_0 == found->Some_0,
        answer is Err ==> answer->Err_0 == PizzaError::NoSuchPizzaFound,
{
    match found {
        Some(updated) => Ok(updated),
        None => Err(PizzaError::NoSuchPizzaFound),
    }
}

/// The list handler: every record of the store, or `NoPizzasFound` on an
/// empty store.
pub fn get_pizzas(db: &Database) -> (answer: Result<Vec<Pizza>, PizzaError>)
    ensures
        list_answer(answer) == list_result(db@),
{
    list_outcome(db.get_all_pizzas())
}

/// The create handler for a given identifier. An invalid request is refused
/// before the store is touched. A valid one is inserted under `uuid`; the
/// answer is the stored record, or `PizzaCreationFailure` where the store
/// rejects the write because the identifier is in use.
pub fn buy_pizza_with(body: &BuyPizzaRequest, uuid: String, db: &mut Database) -> (answer: Result<
    Pizza,
    PizzaError,
>)
    ensures
        records_wf(final(db)@),
        pizza_answer(answer) == create_result(old(db)@, body@, uuid@),
        final(db)@ == after_create(old(db)@, body@, uuid@),
{
    proof {
        use_type_invariant(&*db);
    }
    match checked_pizza(body, uuid) {
        Ok(new_pizza) => creation_outcome(db.add_pizza(new_pizza)),
        Err(e) => Err(e),
    }
}

/// Whether some record of `records` has an identifier of the generated
/// shape. Only such a record can stand in the way of a new one.
pub open spec fn holds_identifier(records: Seq<PizzaView>) -> bool {
    exists|i: int| 0 <= i < records.len() && is_identifier((#[trigger] records[i]).uuid)
}

/// Validates a create request and, where it is valid, builds the record to
/// insert under a new random identifier. An invalid request draws none.
pub fn prepare_pizza(body: &BuyPizzaRequest) -> (answer: Result<Pizza, PizzaError>)
    ensures
        answer is Ok <==> body.is_valid(),
        answer is Ok ==> answer->Ok_0@.pizza_name == body@ && is_identifier(answer->Ok_0@.uuid),
        answer is Err ==> answer->Err_0 == PizzaError::PizzaCreationFailure,
{
    match body.validate() {
        Ok(_) => checked_pizza(body, fresh_identifier()),
        Err(_) => Err(PizzaError::PizzaCreationFailure),
    }
}

/// The create handler: validates the request, draws a new random identifier
/// and inserts the record under it.
///
/// Whatever identifier is drawn: an invalid request fails; every failure is
/// a `PizzaCreationFailure` that leaves the store as it was; on success the
/// answer is the new record, with the requested name and a well-shaped
/// identifier that no record of the store had before, and the store holds
/// that record after all the earlier ones. A valid request can fail only
/// where the identifier drawn is in use, so it succeeds on every store that
/// holds no identifier of the generated shape, the empty store among them.
pub fn buy_pizza(body: &BuyPizzaRequest, db: &mut Database) -> (answer: Result<Pizza, PizzaError>)
    ensures
        records_wf(final(db)@),
        !body.is_valid() ==> answer is Err,
        body.is_valid() && !holds_identifier(old(db)@) ==> answer is Ok,
        answer is Err ==> answer->Err_0 == PizzaError::PizzaCreationFailure && final(db)@ == old(
            db,
        )@,
        answer is Ok ==> {
            let pizza = answer->Ok_0@;
            &&& pizza_answer(answer) == create_result(old(db)@, body@, pizza.uuid)
            &&& final(db)@ == after_create(old(db)@, body@, pizza.uuid)
            &&& pizza.pizza_name == body@
            &&& is_identifier(pizza.uuid)
            &&& !contains_uuid(old(db)@, pizza.uuid)
            &&& final(db)@ == old(db)@.push(pizza)
        },
{
    proof {
        use_type_invariant(&*db);
    }
    match prepare_pizza(body) {
        Ok(new_pizza) => creation_outcome(db.add_pizza(new_pizza)),
        Err(e) => Err(e),
    }
}

/// The update handler: the record with the identifier of the request, or
/// `NoSuchPizzaFound` where the store has none. The store's contents stay as
/// they were in both cases.
pub fn update_pizza(update_pizza_url: UpdatePizzaUrl, db: &mut Database) -> (answer: Result<
    Pizza,
    PizzaError,
>)
    ensures
        records_wf(final(db)@),
        final(db)@ == old(db)@,
        pizza_answer(answer) == update_result(old(db)@, update_pizza_url@),
{
    update_outcome(db.update_pizza(update_pizza_url.uuid))
}

/// A create request with a valid name, under an identifier that is not in
/// use, yields a record with exactly that name and that identifier; the
/// identifier is not empty where it is well-shaped, and the store's rules
/// still hold afterwards, so the identifier stays unique in the store.
pub proof fn lemma_create_yields_requested(
    records: Seq<PizzaView>,
    name: Seq<char>,
    uuid: Seq<char>,
)
    requires
        records_wf(records),
        valid_pizza_name(name),
        !contains_uuid(records, uuid),
    ensures
        create_result(records, name, uuid) == Ok::<PizzaView, PizzaError>(
            requested_pizza(name, uuid),
        ),
        create_result(records, name, uuid)->Ok_0.pizza_name == name,
        create_result(records, name, uuid)->Ok_0.uuid == uuid,
        is_identifier(uuid) ==> uuid.len() > 0,
        records_wf(after_create(records, name, uuid)),
        lookup(after_create(records, name, uuid), uuid) == Some(requested_pizza(name, uuid)),
{
    lemma_insert_keeps_wf(records, requested_pizza(name, uuid));
    lemma_insert_then_lookup(records, requested_pizza(name, uuid), uuid);
}

/// A successful create never reuses an identifier: the one it returns was
/// not in the store before.
pub proof fn lemma_created_uuid_is_new(records: Seq<PizzaView>, name: Seq<char>, uuid: Seq<char>)
    requires
        create_result(records, name, uuid) is Ok,
    ensures
        !contains_uuid(records, uuid),
        valid_pizza_name(name),
{
}

/// A create request with an empty name fails with `PizzaCreationFailure`,
/// whatever the identifier and the store, and inserts nothing.
pub proof fn lemma_empty_name_is_refused(records: Seq<PizzaView>, uuid: Seq<char>)
    ensures
        create_result(records, Seq::<char>::empty(), uuid) == Err::<PizzaView, PizzaError>(
            PizzaError::PizzaCreationFailure,
        ),
        after_create(records, Seq::<char>::empty(), uuid) == records,
{
}

/// Listing an empty store yields `NoPizzasFound`; after one successful
/// create on it, the list holds exactly the created record.
pub proof fn lemma_list_after_first_create(name: Seq<char>, uuid: Seq<char>)
    requires
        create_result(Seq::<PizzaView>::empty(), name, uuid) is Ok,
    ensures
        list_result(Seq::<PizzaView>::empty()) == Err::<Seq<PizzaView>, PizzaError>(
            PizzaError::NoPizzasFound,
        ),
        list_result(after_create(Seq::<PizzaView>::empty(), name, uuid)) == Ok::<
            Seq<PizzaView>,
            PizzaError,
        >(seq![create_result(Seq::<PizzaView>::empty(), name, uuid)->Ok_0]),
{
    let pizza = requested_pizza(name, uuid);
    assert(Seq::<PizzaView>::empty().push(pizza) =~= seq![pizza]);
}

/// On an empty store every valid create request succeeds, whatever the
/// identifier.
pub proof fn lemma_first_create_succeeds(name: Seq<char>, uuid: Seq<char>)
    requires
        valid_pizza_name(name),
    ensures
        create_result(Seq::<PizzaView>::empty(), name, uuid) is Ok,
{
}

/// An update request for an identifier that the store does not hold yields
/// `NoSuchPizzaFound`.
pub proof fn lemma_update_of_unknown(records: Seq<PizzaView>, uuid: Seq<char>)
    requires
        !contains_uuid(records, uuid),
    ensures
        update_result(records, uuid) == Err::<PizzaView, PizzaError>(PizzaError::NoSuchPizzaFound),
{
}

/// An update request for an identifier that the store holds succeeds, with a
/// record of the store that has this identifier.
pub proof fn lemma_update_of_known(records: Seq<PizzaView>, uuid: Seq<char>)
    requires
        contains_uuid(records, uuid),
    ensures
        update_result(records, uuid) is Ok,
        update_result(records, uuid)->Ok_0.uuid == uuid,
        records.contains(update_result(records, uuid)->Ok_0),
{
}

/// Two create requests served one after the other: if both succeed, their
/// identifiers differ, the store has grown by two records, and each of the
/// two is found under its identifier afterwards.
pub proof fn lemma_two_creates_keep_both(
    records: Seq<PizzaView>,
    name1: Seq<char>,
    uuid1: Seq<char>,
    name2: Seq<char>,
    uuid2: Seq<char>,
)
    requires
        records_wf(records),
        create_result(records, name1, uuid1) is Ok,
        create_result(after_create(records, name1, uuid1), name2, uuid2) is Ok,
    ensures
        uuid1 != uuid2,
        ({
            let end = after_create(after_create(records, name1, uuid1), name2, uuid2);
            &&& records_wf(end)
            &&& end.len() == records.len() + 2
            &&& lookup(end, uuid1) == Some(requested_pizza(name1, uuid1))
            &&& lookup(end, uuid2) == Some(requested_pizza(name2, uuid2))
        }),
{
    let first = requested_pizza(name1, uuid1);
    let second = requested_pizza(name2, uuid2);
    let mid = after_create(records, name1, uuid1);
    lemma_insert_keeps_wf(records, first);
    lemma_insert_then_lookup(records, first, uuid1);
    assert(contains_uuid(mid, uuid1)) by {
        assert(mid[records.len() as int].uuid == uuid1);
    }
    lemma_insert_keeps_wf(mid, second);
    lemma_insert_then_lookup(mid, second, uuid1);
}

/// Two valid create requests whose identifiers differ and are not in use
/// both succeed, in whichever order the store serves them.
pub proof fn lemma_two_creates_succeed(
    records: Seq<PizzaView>,
    name1: Seq<char>,
    uuid1: Seq<char>,
    name2: Seq<char>,
    uuid2: Seq<char>,
)
    requires
        valid_pizza_name(name1),
        valid_pizza_name(name2),
        uuid1 != uuid2,
        !contains_uuid(records, uuid1),
        !contains_uuid(records, uuid2),
    ensures
        create_result(records, name1, uuid1) is Ok,
        create_result(after_create(records, name1, uuid1), name2, uuid2) is Ok,
        create_result(records, name2, uuid2) is Ok,
        create_result(after_create(records, name2, uuid2), name1, uuid1) is Ok,
{
    let first = requested_pizza(name1, uuid1);
    let second = requested_pizza(name2, uuid2);
    assert forall|k: int| 0 <= k < records.push(first).len() implies (#[trigger] records.push(
        first,
    )[k]).uuid != uuid2 by {
        if k < records.len() {
            assert(records.push(first)[k] == records[k]);
        }
    }
    assert forall|k: int| 0 <= k < records.push(second).len() implies (#[trigger] records.push(
        second,
    )[k]).uuid != uuid1 by {
        if k < records.len() {
            assert(records.push(second)[k] == records[k]);
        }
    }
}

} // verus!
