use pizza_catalog::error::pizza_error::PizzaError;

#[test]
fn status_codes_of_the_four_kinds() {
    assert_eq!(PizzaError::NoPizzasFound.status_code(), 404);
    assert_eq!(PizzaError::PizzaCreationFailure.status_code(), 400);
    assert_eq!(PizzaError::NoSuchPizzaFound.status_code(), 404);
    assert_eq!(PizzaError::ConnectionError.status_code(), 503);
}

#[test]
fn messages_of_the_four_kinds() {
    assert_eq!(PizzaError::NoPizzasFound.message(), "No pizzas found");
    assert_eq!(PizzaError::PizzaCreationFailure.message(), "Error creating pizza");
    assert_eq!(PizzaError::NoSuchPizzaFound.message(), "No such pizza found");
    assert_eq!(PizzaError::ConnectionError.message(), "Cannot reach the pizza store");
}

#[test]
fn messages_tell_the_kinds_apart() {
    let kinds = [
        PizzaError::NoPizzasFound,
        PizzaError::PizzaCreationFailure,
        PizzaError::NoSuchPizzaFound,
        PizzaError::ConnectionError,
    ];
    for (i, a) in kinds.iter().enumerate() {
        for (j, b) in kinds.iter().enumerate() {
            assert_eq!(a.message() == b.message(), i == j);
            assert_eq!(a == b, i == j);
        }
    }
}

#[test]
fn every_status_is_an_error_status() {
    let kinds = [
        PizzaError::NoPizzasFound,
        PizzaError::PizzaCreationFailure,
        PizzaError::NoSuchPizzaFound,
        PizzaError::ConnectionError,
    ];
    for kind in kinds.iter() {
        let code = kind.status_code();
        assert!((400..600).contains(&code));
    }
}
