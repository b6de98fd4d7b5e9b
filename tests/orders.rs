use suipay::indexer::{reconcile_page, RawEvent, RefIdField};
use suipay::order::{create_order, currency_or_default, OrderBook, OrderStatus};

fn text_event(s: &str) -> RawEvent {
    RawEvent { ref_id: Some(RefIdField::Text(s.to_string())) }
}

#[test]
fn order_paid_once_then_left_alone() {
    let mut book = OrderBook::new();
    let id = create_order(&mut book, "0xAB12".to_string(), 1000, Some("USDC".to_string())).unwrap();
    let o = book.get(id).unwrap();
    assert_eq!(o.status, OrderStatus::Pending);
    assert_eq!(o.amount, 1000);
    assert_eq!(o.currency, "USDC");
    assert_eq!(o.merchant_address, "0xAB12");

    let page = vec![text_event(&uuid::Uuid::from_u128(id).to_string())];
    assert_eq!(reconcile_page(&mut book, &page), 1);
    assert_eq!(book.get(id).unwrap().status, OrderStatus::Paid);

    assert_eq!(reconcile_page(&mut book, &page), 0);
    assert_eq!(book.get(id).unwrap().status, OrderStatus::Paid);
    assert_eq!(book.get(id).unwrap().amount, 1000);
}

#[test]
fn currency_defaults_to_usdc() {
    assert_eq!(currency_or_default(None), "USDC");
    assert_eq!(currency_or_default(Some("SUI".to_string())), "SUI");
    let mut book = OrderBook::new();
    let id = create_order(&mut book, "0x1".to_string(), 5, None).unwrap();
    assert_eq!(book.get(id).unwrap().currency, "USDC");
}

#[test]
fn create_refuses_taken_id() {
    let mut book = OrderBook::new();
    assert!(book.create(7, "a".to_string(), 1, "USDC".to_string()));
    assert!(!book.create(7, "b".to_string(), 2, "SUI".to_string()));
    assert_eq!(book.get(7).unwrap().merchant_address, "a");
    assert!(book.get(8).is_none());
}

#[test]
fn mark_paid_twice_affects_one_row() {
    let mut book = OrderBook::new();
    assert!(book.create(42, "m".to_string(), 10, "USDC".to_string()));
    assert_eq!(book.mark_paid_if_pending(42), 1);
    assert_eq!(book.mark_paid_if_pending(42), 0);
    assert_eq!(book.get(42).unwrap().status, OrderStatus::Paid);
}

#[test]
fn unknown_reference_is_noop() {
    let mut book = OrderBook::new();
    assert!(book.create(1, "m".to_string(), 10, "USDC".to_string()));
    assert_eq!(book.mark_paid_if_pending(2), 0);
    let page = vec![text_event("00000000-0000-0000-0000-000000000002")];
    assert_eq!(reconcile_page(&mut book, &page), 0);
    assert_eq!(book.get(1).unwrap().status, OrderStatus::Pending);
    assert!(book.get(2).is_none());
}

#[test]
fn malformed_record_does_not_stop_page() {
    let mut book = OrderBook::new();
    assert!(book.create(3, "m".to_string(), 10, "USDC".to_string()));
    assert!(book.create(4, "m".to_string(), 10, "USDC".to_string()));
    let page = vec![
        RawEvent { ref_id: None },
        text_event("not an id"),
        text_event("00000000-0000-0000-0000-000000000003"),
        text_event(""),
        text_event("00000000000000000000000000000004"),
    ];
    assert_eq!(reconcile_page(&mut book, &page), 2);
    assert_eq!(book.get(3).unwrap().status, OrderStatus::Paid);
    assert_eq!(book.get(4).unwrap().status, OrderStatus::Paid);
}
