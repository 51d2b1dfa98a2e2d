use server::domain::models::UtcTimestamp;
use server::models::delivery::Delivery;
use server::models::item::Item;
use server::models::model::{JsonOrder, Order};
use server::models::payment::Payment;

fn delivery(name: &str) -> Delivery {
    Delivery::new(
        name.to_string(),
        "+9720000000".to_string(),
        "2639809".to_string(),
        "Kiryat Mozkin".to_string(),
        "Ploshad Mira 15".to_string(),
        "Kraiot".to_string(),
        "test@gmail.com".to_string(),
    )
}

fn payment(currency: &str) -> Payment {
    Payment::new(
        "b563feb7b2b84b6test".to_string(),
        None,
        currency.to_string(),
        "wbpay".to_string(),
        1817,
        1637907727,
        "alpha".to_string(),
        1500,
        317,
        0,
    )
}

fn item(brand: &str) -> Item {
    Item::new(
        9934930,
        "WBILMTESTTRACK".to_string(),
        453,
        "ab4219087a764ae0btest".to_string(),
        "Mascaras".to_string(),
        30,
        "0".to_string(),
        317,
        2389212,
        brand.to_string(),
        202,
    )
}

fn order(uid: &str, d: Delivery, p: Payment, items: Vec<Item>) -> Order {
    Order::new(
        uid.to_string(),
        "WBILMTESTTRACK".to_string(),
        "WBIL".to_string(),
        d,
        p,
        items,
        "en".to_string(),
        Some(String::new()),
        "test".to_string(),
        "meest".to_string(),
        "9".to_string(),
        99,
        UtcTimestamp { secs: 1637907727, nanos: 0 },
        "1".to_string(),
    )
}

#[test]
fn complete_order_is_valid() {
    let o = order("b563feb7b2b84b6test", delivery("Test Testov"), payment("USD"), vec![item("Vivienne Sabo")]);
    assert!(o.validate());
}

#[test]
fn empty_internal_signature_is_allowed() {
    let o = order("uid", delivery("n"), payment("USD"), vec![]);
    assert!(o.validate());
}

#[test]
fn empty_uid_is_invalid() {
    let o = order("", delivery("n"), payment("USD"), vec![item("b")]);
    assert!(!o.validate());
}

#[test]
fn empty_delivery_field_is_invalid() {
    assert!(!delivery("").validate());
    let o = order("uid", delivery(""), payment("USD"), vec![item("b")]);
    assert!(!o.validate());
}

#[test]
fn empty_payment_field_is_invalid() {
    assert!(!payment("").validate());
    let o = order("uid", delivery("n"), payment(""), vec![item("b")]);
    assert!(!o.validate());
}

#[test]
fn empty_field_in_any_item_is_invalid() {
    assert!(!item("").validate());
    let o = order("uid", delivery("n"), payment("USD"), vec![item("b"), item("")]);
    assert!(!o.validate());
}

#[test]
fn accept_rejects_unparsed_and_invalid_bodies() {
    match JsonOrder::accept(None) {
        Err((status, message)) => {
            assert_eq!(status, 400);
            assert_eq!(message, "Invalid JSON body");
        }
        Ok(_) => panic!("an unparsed body was accepted"),
    }
    let bad = order("", delivery("n"), payment("USD"), vec![]);
    assert!(matches!(JsonOrder::accept(Some(bad)), Err((400, "Invalid JSON body"))));
    let good = order("uid", delivery("n"), payment("USD"), vec![]);
    match JsonOrder::accept(Some(good.clone())) {
        Ok(JsonOrder(o)) => assert_eq!(o, good),
        Err(_) => panic!("a valid order was rejected"),
    }
}
