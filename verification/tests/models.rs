use pizza_catalog::models::pizza::{
    BuyPizzaRequest, InvalidField, Pizza, UpdatePizzaUrl, MIN_PIZZA_NAME_LEN,
};

#[test]
fn pizza_new_keeps_both_fields() {
    let pizza = Pizza::new(String::from("abc123"), String::from("Margherita"));
    assert_eq!(pizza.uuid, "abc123");
    assert_eq!(pizza.pizza_name, "Margherita");
}

#[test]
fn pizza_new_does_not_swap_fields() {
    let pizza = Pizza::new(String::from("first"), String::from("second"));
    assert_ne!(pizza.uuid, pizza.pizza_name);
    assert_eq!(pizza.uuid, "first");
}

#[test]
fn pizza_clone_is_equal_field_by_field() {
    let pizza = Pizza::new(String::from("id"), String::from("Funghi"));
    let copy = pizza.clone();
    assert_eq!(copy.uuid, pizza.uuid);
    assert_eq!(copy.pizza_name, pizza.pizza_name);
}

#[test]
fn pizza_debug_names_the_fields() {
    let pizza = Pizza::new(String::from("id"), String::from("Funghi"));
    let text = format!("{:?}", pizza);
    assert!(text.contains("uuid"));
    assert!(text.contains("Funghi"));
}

#[test]
fn minimum_name_length_is_one() {
    assert_eq!(MIN_PIZZA_NAME_LEN, 1);
}

#[test]
fn validate_accepts_a_name() {
    let body = BuyPizzaRequest { pizza_name: String::from("Margherita") };
    assert_eq!(body.validate(), Ok(()));
}

#[test]
fn validate_accepts_a_single_character() {
    let body = BuyPizzaRequest { pizza_name: String::from("x") };
    assert_eq!(body.validate(), Ok(()));
}

#[test]
fn validate_accepts_a_single_wide_character() {
    let body = BuyPizzaRequest { pizza_name: String::from("\u{1F355}") };
    assert_eq!(body.validate(), Ok(()));
}

#[test]
fn validate_accepts_a_blank() {
    let body = BuyPizzaRequest { pizza_name: String::from(" ") };
    assert_eq!(body.validate(), Ok(()));
}

#[test]
fn validate_rejects_the_empty_name() {
    let body = BuyPizzaRequest { pizza_name: String::new() };
    assert_eq!(body.validate(), Err(vec![InvalidField::PizzaName]));
}

#[test]
fn has_valid_name_follows_the_length() {
    assert!(Pizza::new(String::from("id"), String::from("a")).has_valid_name());
    assert!(!Pizza::new(String::from("id"), String::new()).has_valid_name());
}

#[test]
fn update_url_holds_the_identifier() {
    let url = UpdatePizzaUrl { uuid: String::from("0123") };
    assert_eq!(url.uuid, "0123");
}
