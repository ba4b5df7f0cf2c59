use purchase_core::cart::{Cart, Customer, DocumentKind, Payment, UplInfoObject, UplKind};
use purchase_core::errors::CartError;
use purchase_core::purchase::{ItemKind, Purchase};
use purchase_core::vat::VAT;

fn closed_purchase() -> Purchase {
    let mut c = Cart::new(1, Some(2), 3);
    c.add_upl(UplInfoObject {
        upl_id: "T1".to_string(),
        kind: UplKind::Sku { sku: 100, piece: 2 },
        name: "widget".to_string(),
        retail_net_price: 1000,
        vat: VAT::_27,
        retail_gross_price: 1270,
        procurement_net_price: 700,
        best_before: None,
        depreciated: false,
    })
    .unwrap();
    let mut dep = UplInfoObject {
        upl_id: "D1".to_string(),
        kind: UplKind::Sku { sku: 200, piece: 1 },
        name: "dented".to_string(),
        retail_net_price: 500,
        vat: VAT::_27,
        retail_gross_price: 635,
        procurement_net_price: 400,
        best_before: Some(1_700_000_000),
        depreciated: true,
    };
    dep.depreciated = true;
    c.add_upl(dep).unwrap();
    c.add_upl(UplInfoObject {
        upl_id: "G1".to_string(),
        kind: UplKind::DerivedProduct { product_id: 7, amount: 250 },
        name: "opened".to_string(),
        retail_net_price: 300,
        vat: VAT::_18,
        retail_gross_price: 354,
        procurement_net_price: 100,
        best_before: None,
        depreciated: false,
    })
    .unwrap();
    c.add_loyalty_card(11, "CARD-1".to_string(), purchase_core::cart::LoyaltyLevel::L2)
        .unwrap();
    c.burn_points(11, 42, 100).unwrap();
    c.add_customer(Some(Customer {
        id: 5,
        name: "Acme".to_string(),
        zip: "1111".to_string(),
        location: "Budapest".to_string(),
        street: "Fo utca 1".to_string(),
        tax_number: "123".to_string(),
    }));
    c.set_document(DocumentKind::Invoice);
    let payable = c.payable;
    c.add_payment(Payment { payment_id: "P1".to_string(), amount: payable });
    c.close_cart().unwrap()
}

#[test]
fn the_ledger_flattens_lines_and_unique_tags() {
    let p = closed_purchase();
    assert_eq!(p.items.len(), 3);
    assert!(matches!(p.items[0].kind, ItemKind::Sku));
    assert_eq!(p.items[0].name, "widget");
    assert_eq!(p.items[0].piece, 2);
    assert_eq!(p.items[0].product_id, 0);
    assert_eq!(p.items[0].vat, "27");
    assert_eq!(p.items[0].total_retail_price_net, 2000);
    assert_eq!(p.items[0].total_retail_price_gross, 2540);
    assert!(matches!(p.items[1].kind, ItemKind::SkuDepreciated));
    assert_eq!(p.items[1].name, "dented");
    assert_eq!(p.items[1].piece, 1);
    assert_eq!(p.items[1].total_retail_price_net, 500);
    assert!(matches!(p.items[2].kind, ItemKind::DerivedProduct));
    assert_eq!(p.items[2].product_id, 7);
    assert_eq!(p.items[2].piece, 1);
    assert_eq!(p.items[2].vat, "18");
    assert_eq!(p.items[2].total_retail_price_net, 300);
    assert_eq!(p.upl_info_objects.len(), 3);
    assert_eq!(p.upl_info_objects[0].upl_id, "T1");
    assert_eq!(p.upl_info_objects[1].upl_id, "D1");
    assert_eq!(p.upl_info_objects[1].best_before, Some(1_700_000_000));
    assert_eq!(p.upl_info_objects[2].upl_id, "G1");
}

#[test]
fn financials_are_frozen_at_close() {
    let p = closed_purchase();
    // items: 2000 + 500 + 300 net, 2540 + 635 + 354 gross, 100 points burned
    assert_eq!(p.total_gross, 2540 + 635 + 354 - 100);
    assert_eq!(p.total_net, 2800 - 79);
    assert_eq!(p.total_vat, p.total_gross - p.total_net);
    assert_eq!(p.burned_loyalty_points, 100);
    assert_eq!(p.balance, 0);
    assert_eq!(p.profit_net, p.total_net as i32 - 1200);
    assert_eq!(p.payments.len(), 1);
    assert_eq!(p.payments[0].payment_id, "P1");
    assert_eq!(p.burned_points.len(), 1);
    assert_eq!(p.burned_points[0].transaction_id, 42);
    assert!(p.invoice.is_none());
    assert!(p.storno_invoice.is_none());
    assert_eq!(p.owner_uid, 1);
    assert_eq!(p.store_id, Some(2));
    assert_eq!(p.created_by, 3);
    assert!(p.restored.is_none());
    let card = p.loyalty_card.as_ref().unwrap();
    assert_eq!(card.account_id, 11);
    assert_eq!(card.card_id, "CARD-1");
    assert_eq!(card.burned_points, 0);
}

#[test]
fn an_invoice_attaches_exactly_once() {
    let mut p = closed_purchase();
    p.set_invoice_id("INV-1".to_string()).unwrap();
    assert_eq!(p.invoice.as_deref(), Some("INV-1"));
    let r = p.set_invoice_id("INV-2".to_string());
    assert!(matches!(r, Err(CartError::Conflict(_))));
    assert_eq!(p.invoice.as_deref(), Some("INV-1"));
}

#[test]
fn the_loyalty_summary_must_agree_on_burned_points() {
    let mut p = closed_purchase();
    let r = p.set_loyalty_summary(500, 99, 10, 410);
    assert!(matches!(r, Err(CartError::Conflict(_))));
    p.set_loyalty_summary(500, 100, 10, 410).unwrap();
    let card = p.loyalty_card.as_ref().unwrap();
    assert_eq!(card.balance_opening, 500);
    assert_eq!(card.burned_points, 100);
    assert_eq!(card.earned_points, 10);
    assert_eq!(card.balance_closing, 410);
}

#[test]
fn a_default_purchase_is_empty_under_the_nil_id() {
    let p = Purchase::default();
    assert_eq!(p.id, 0);
    assert_eq!(p.get_id(), 0);
    assert!(p.items.is_empty());
    assert!(p.upl_info_objects.is_empty());
    assert_eq!(p.total_gross, 0);
    assert_eq!(p.balance, 0);
    assert!(p.invoice.is_none());
}

#[test]
fn the_purchase_keeps_the_cart_identifier() {
    let mut c = Cart::new(1, None, 1);
    c.set_document(DocumentKind::Receipt);
    let id = c.get_id();
    let p = c.close_cart().unwrap();
    assert_eq!(p.get_id(), id);
}

#[test]
fn a_summary_without_a_card_is_not_found() {
    let mut c = Cart::new(1, None, 1);
    c.set_document(DocumentKind::Receipt);
    let mut p = c.close_cart().unwrap();
    let r = p.set_loyalty_summary(0, 0, 0, 0);
    assert!(matches!(r, Err(CartError::NotFound(_))));
}
