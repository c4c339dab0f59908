//! `PizzaError`: the four error kinds, each with a status code and a message.

use vstd::prelude::*;

verus! {

/// The ways a request, or the start of the service, can fail.
#[derive(Debug, Clone, Copy, PartialEq, Eq, Structural)]
pub enum PizzaError {
    /// The store holds no record.
    NoPizzasFound,
    /// A create request was invalid, or the store did not take the record.
    PizzaCreationFailure,
    /// No record has the identifier of an update request.
    NoSuchPizzaFound,
    /// The store could not be reached when the service started.
    ConnectionError,
}

impl PizzaError {
    /// The HTTP status code of each kind.
    pub open spec fn spec_status_code(self) -> u16 {
        match self {
            PizzaError::NoPizzasFound => 404,
            PizzaError::PizzaCreationFailure => 400,
            PizzaError::NoSuchPizzaFound => 404,
            PizzaError::ConnectionError => 503,
        }
    }

    /// The response body of each kind.
    pub open spec fn spec_message(self) -> Seq<char> {
        match self {
            PizzaError::NoPizzasFound => "No pizzas found"@,
            PizzaError::PizzaCreationFailure => "Error creating pizza"@,
            PizzaError::NoSuchPizzaFound => "No such pizza found"@,
            PizzaError::ConnectionError => "Cannot reach the pizza store"@,
        }
    }

    /// The HTTP status code under which this error is reported.
    pub fn status_code(&self) -> (code: u16)
        ensures
            code == self.spec_status_code(),
    {
        match self {
            PizzaError::NoPizzasFound => 404,
            PizzaError::PizzaCreationFailure => 400,
            PizzaError::NoSuchPizzaFound => 404,
            PizzaError::ConnectionError => 503,
        }
    }

    /// The text of the response body for this error.
    pub fn message(&self) -> (text: String)
        ensures
            text@ == self.spec_message(),
    {
        match self {
            PizzaError::NoPizzasFound => "No pizzas found".to_owned(),
            PizzaError::PizzaCreationFailure => "Error creating pizza".to_owned(),
            PizzaError::NoSuchPizzaFound => "No such pizza found".to_owned(),
            PizzaError::ConnectionError => "Cannot reach the pizza store".to_owned(),
        }
    }
}

/// The response body alone tells the four kinds apart: two errors with the
/// same message are the same kind.
pub proof fn lemma_message_tells_kind(a: PizzaError, b: PizzaError)
    ensures
        a.spec_message() == b.spec_message() <==> a == b,
{
    reveal_strlit("No pizzas found");
    reveal_strlit("Error creating pizza");
    reveal_strlit("No such pizza found");
    reveal_strlit("Cannot reach the pizza store");
    assert("No pizzas found"@.len() == 15);
    assert("Error creating pizza"@.len() == 20);
    assert("No such pizza found"@.len() == 19);
    assert("Cannot reach the pizza store"@.len() == 28);
}

/// Every error is reported under a client-error or server-error status.
pub proof fn lemma_status_is_an_error(e: PizzaError)
    ensures
        400 <= e.spec_status_code() < 600,
{
}

} // verus!
