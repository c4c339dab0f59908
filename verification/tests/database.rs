use pizza_catalog::db::database::Database;
use pizza_catalog::models::pizza::Pizza;

fn pizza(uuid: &str, name: &str) -> Pizza {
    Pizza::new(String::from(uuid), String::from(name))
}

#[test]
fn new_store_is_empty() {
    let db = Database::init();
    assert_eq!(db.len(), 0);
    assert!(db.get_all_pizzas().is_none());
}

#[test]
fn add_returns_the_stored_record() {
    let mut db = Database::init();
    let stored = db.add_pizza(pizza("a1", "Margherita")).expect("the store takes the record");
    assert_eq!(stored.uuid, "a1");
    assert_eq!(stored.pizza_name, "Margherita");
    assert_eq!(db.len(), 1);
}

#[test]
fn get_all_returns_records_in_order_of_insertion() {
    let mut db = Database::init();
    assert!(db.add_pizza(pizza("a1", "Margherita")).is_some());
    assert!(db.add_pizza(pizza("b2", "Funghi")).is_some());
    assert!(db.add_pizza(pizza("c3", "Diavola")).is_some());
    let all = db.get_all_pizzas().expect("the store is not empty");
    let pairs: Vec<(&str, &str)> =
        all.iter().map(|p| (p.uuid.as_str(), p.pizza_name.as_str())).collect();
    assert_eq!(pairs, vec![("a1", "Margherita"), ("b2", "Funghi"), ("c3", "Diavola")]);
}

#[test]
fn add_rejects_an_identifier_in_use() {
    let mut db = Database::init();
    assert!(db.add_pizza(pizza("a1", "Margherita")).is_some());
    assert!(db.add_pizza(pizza("a1", "Funghi")).is_none());
    let all = db.get_all_pizzas().expect("the store is not empty");
    assert_eq!(all.len(), 1);
    assert_eq!(all[0].pizza_name, "Margherita");
}

#[test]
fn add_rejects_an_empty_name() {
    let mut db = Database::init();
    assert!(db.add_pizza(pizza("a1", "")).is_none());
    assert_eq!(db.len(), 0);
    assert!(db.get_all_pizzas().is_none());
}

#[test]
fn same_name_under_two_identifiers_is_stored_twice() {
    let mut db = Database::init();
    assert!(db.add_pizza(pizza("a1", "Margherita")).is_some());
    assert!(db.add_pizza(pizza("b2", "Margherita")).is_some());
    assert_eq!(db.len(), 2);
}

#[test]
fn update_finds_the_record_and_keeps_the_store() {
    let mut db = Database::init();
    assert!(db.add_pizza(pizza("a1", "Margherita")).is_some());
    assert!(db.add_pizza(pizza("b2", "Funghi")).is_some());
    let updated = db.update_pizza(String::from("b2")).expect("the record is there");
    assert_eq!(updated.uuid, "b2");
    assert_eq!(updated.pizza_name, "Funghi");
    let all = db.get_all_pizzas().expect("the store is not empty");
    assert_eq!(all.len(), 2);
    assert_eq!(all[0].uuid, "a1");
    assert_eq!(all[1].uuid, "b2");
    assert_eq!(all[1].pizza_name, "Funghi");
}

#[test]
fn update_of_an_unknown_identifier_finds_nothing() {
    let mut db = Database::init();
    assert!(db.add_pizza(pizza("a1", "Margherita")).is_some());
    assert!(db.update_pizza(String::from("zz")).is_none());
    assert!(db.update_pizza(String::from("")).is_none());
    assert!(db.update_pizza(String::from("a")).is_none());
    assert_eq!(db.len(), 1);
}

#[test]
fn update_on_an_empty_store_finds_nothing() {
    let mut db = Database::init();
    assert!(db.update_pizza(String::from("a1")).is_none());
    assert_eq!(db.len(), 0);
}
