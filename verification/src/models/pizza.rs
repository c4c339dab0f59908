//! `Pizza`, `BuyPizzaRequest` and `UpdatePizzaUrl`, with the validation rule
//! of a create request.

use vstd::prelude::*;

verus! {

/// The smallest number of characters a pizza name may have.
pub const MIN_PIZZA_NAME_LEN: u64 = 1;

/// What a `Pizza` is, mathematically: an identifier and a name.
pub struct PizzaView {
    pub uuid: Seq<char>,
    pub pizza_name: Seq<char>,
}

/// A field of a request that failed validation.
#[derive(Debug, Clone, Copy, PartialEq, Eq, Structural)]
pub enum InvalidField {
    /// `pizza_name` is shorter than `MIN_PIZZA_NAME_LEN` characters.
    PizzaName,
}

/// The body of a create request.
#[derive(Debug)]
pub struct BuyPizzaRequest {
    pub pizza_name: String,
}

/// The path segment of an update request.
#[derive(Debug)]
pub struct UpdatePizzaUrl {
    pub uuid: String,
}

/// A record of the catalog.
#[derive(Debug)]
pub struct Pizza {
    pub uuid: String,
    pub pizza_name: String,
}

/// A name is acceptable when it has at least `MIN_PIZZA_NAME_LEN` characters.
pub open spec fn valid_pizza_name(name: Seq<char>) -> bool {
    name.len() >= MIN_PIZZA_NAME_LEN
}

/// Length rule of the `validator` crate, `ValidateLength::validate_length`
/// with only a minimum given, applied to a `String`. The crate measures a
/// string by its number of characters and accepts it exactly when that number
/// is not below the minimum; the contract says the same over the string's
/// view, whose length is the number of characters.
#[verifier::external_body]
fn has_min_length(value: &String, min: u64) -> (ok: bool)
    ensures
        ok == (value@.len() >= min),
{
    validator::ValidateLength::validate_length(value, Some(min), None, None)
}

impl View for BuyPizzaRequest {
    type V = Seq<char>;

    /// A create request is its requested name.
    open spec fn view(&self) -> Seq<char> {
        self.pizza_name@
    }
}

impl BuyPizzaRequest {
    /// Whether the request passes validation.
    pub open spec fn is_valid(&self) -> bool {
        valid_pizza_name(self.pizza_name@)
    }

    /// Validates the request: `Ok` exactly when the name is long enough,
    /// otherwise the list of failing fields, which is `pizza_name` alone.
    pub fn validate(&self) -> (outcome: Result<(), Vec<InvalidField>>)
        ensures
            outcome is Ok <==> self.is_valid(),
            outcome is Err ==> outcome->Err_0@ == seq![InvalidField::PizzaName],
    {
        if has_min_length(&self.pizza_name, MIN_PIZZA_NAME_LEN) {
            Ok(())
        } else {
            let mut fields: Vec<InvalidField> = Vec::new();
            fields.push(InvalidField::PizzaName);
            assert(fields@ =~= seq![InvalidField::PizzaName]);
            Err(fields)
        }
    }
}

impl View for UpdatePizzaUrl {
    type V = Seq<char>;

    /// An update target is the identifier it names.
    open spec fn view(&self) -> Seq<char> {
        self.uuid@
    }
}

impl View for Pizza {
    type V = PizzaView;

    open spec fn view(&self) -> PizzaView {
        PizzaView { uuid: self.uuid@, pizza_name: self.pizza_name@ }
    }
}

impl Clone for Pizza {
    fn clone(&self) -> (copy: Pizza)
        ensures
            copy@ == self@,
    {
        Pizza { uuid: self.uuid.clone(), pizza_name: self.pizza_name.clone() }
    }
}

impl Pizza {
    /// Whether the record's name is long enough to be stored.
    pub fn has_valid_name(&self) -> (ok: bool)
        ensures
            ok == valid_pizza_name(self.pizza_name@),
    {
        has_min_length(&self.pizza_name, MIN_PIZZA_NAME_LEN)
    }

    /// Builds a record from its identifier and its name.
    pub fn new(uuid: String, pizza_name: String) -> (pizza: Pizza)
        ensures
            pizza.uuid == uuid,
            pizza.pizza_name == pizza_name,
            pizza@ == (PizzaView { uuid: uuid@, pizza_name: pizza_name@ }),
    {
        Pizza { uuid, pizza_name }
    }
}

} // verus!
