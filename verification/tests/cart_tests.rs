use purchase_core::cart::{
    Cart, Customer, DocumentKind, LoyaltyLevel, Payment, PaymentKind, UplInfoObject, UplKind,
};
use purchase_core::errors::CartError;
use purchase_core::vat::VAT;

fn healthy_tag(id: &str, sku: u32, piece: u32, net: u32, gross: u32) -> UplInfoObject {
    UplInfoObject {
        upl_id: id.to_string(),
        kind: UplKind::Sku { sku, piece },
        name: "unit".to_string(),
        retail_net_price: net,
        vat: VAT::_27,
        retail_gross_price: gross,
        procurement_net_price: 0,
        best_before: None,
        depreciated: false,
    }
}

#[test]
fn new_cart_is_empty_and_open() {
    let c = Cart::new(7, Some(3), 9);
    assert_eq!(c.owner_uid, 7);
    assert_eq!(c.store_id, Some(3));
    assert_eq!(c.created_by, 9);
    assert!(c.shopping_list.is_empty());
    assert!(c.upls_sku.is_empty());
    assert!(c.upls_unique.is_empty());
    assert_eq!(c.total_net, 0);
    assert_eq!(c.total_vat, 0);
    assert_eq!(c.total_gross, 0);
    assert_eq!(c.payable, 0);
    assert!(matches!(c.document_kind, DocumentKind::Receipt));
    assert!(matches!(c.payment_kind, PaymentKind::Cash));
}

#[test]
fn add_sku_computes_totals_exactly() {
    let mut c = Cart::new(1, None, 1);
    c.add_sku(100, 2, "widget".to_string(), VAT::_27, 1000, 1270);
    assert_eq!(c.total_net, 2000);
    assert_eq!(c.total_gross, 2540);
    assert_eq!(c.total_vat, 540);
    assert_eq!(c.payable, 2540);
    assert_eq!(c.shopping_list.len(), 1);
    assert_eq!(c.shopping_list[0].piece, 2);
    assert_eq!(c.shopping_list[0].unit_price_vat, 270);
    assert_eq!(c.shopping_list[0].total_price_net, 2000);
    assert_eq!(c.shopping_list[0].total_price_gross, 2540);
}

#[test]
fn add_sku_replaces_an_existing_line() {
    let mut c = Cart::new(1, None, 1);
    c.add_sku(100, 2, "widget".to_string(), VAT::_27, 1000, 1270);
    c.add_sku(100, 5, "widget".to_string(), VAT::_27, 200, 254);
    assert_eq!(c.shopping_list.len(), 1);
    assert_eq!(c.shopping_list[0].piece, 5);
    assert_eq!(c.total_net, 1000);
    assert_eq!(c.total_gross, 1270);
}

#[test]
fn commitment_discount_follows_the_percentage() {
    let mut c = Cart::new(1, None, 1);
    c.add_sku(100, 2, "widget".to_string(), VAT::_27, 1000, 1270);
    c.add_commitment(1, 10).unwrap();
    assert_eq!(c.commitment_discount_value, 254);
    assert_eq!(c.total_gross, 2540 - 254);
    assert_eq!(c.total_net, 2000 - 200);
    assert_eq!(c.total_vat, 2286 - 1800);
    assert_eq!(c.payable, 2285);
    c.remove_commitment().unwrap();
    assert_eq!(c.commitment_discount_value, 0);
    assert_eq!(c.total_gross, 2540);
    assert!(matches!(c.remove_commitment(), Err(CartError::NotFound(_))));
}

#[test]
fn cash_settlement_gates_the_close() {
    let mut c = Cart::new(1, None, 1);
    c.add_upl(healthy_tag("T1", 100, 2, 1000, 1270)).unwrap();
    c.add_commitment(1, 10).unwrap();
    assert_eq!(c.payable, 2285);
    c.add_payment(Payment { payment_id: "P1".to_string(), amount: 2286 });
    let r = c.close_cart();
    match r {
        Err(CartError::Rejected(m)) => assert_eq!(m, "cash payment is not settled"),
        _ => panic!("an unsettled cash cart must be rejected"),
    }
    c.add_payment(Payment { payment_id: "P2".to_string(), amount: -1 });
    let p = c.close_cart().unwrap();
    assert_eq!(p.balance, 0);
    assert_eq!(p.total_gross, 2286);
    assert_eq!(p.total_net, 1800);
    assert_eq!(p.payable, 2285);
}

#[test]
fn healthy_tag_opens_and_backs_a_line() {
    let mut c = Cart::new(1, None, 1);
    c.add_upl(healthy_tag("T1", 100, 2, 1000, 1270)).unwrap();
    assert_eq!(c.shopping_list.len(), 1);
    assert_eq!(c.shopping_list[0].piece, 2);
    assert_eq!(c.upls_sku.len(), 1);
    assert_eq!(c.total_net, 2000);
    assert_eq!(c.total_gross, 2540);
    c.add_upl(healthy_tag("T2", 100, 1, 1000, 1270)).unwrap();
    assert_eq!(c.shopping_list.len(), 1);
    assert_eq!(c.shopping_list[0].piece, 3);
    assert_eq!(c.upls_sku.len(), 2);
    assert_eq!(c.total_net, 3000);
}

#[test]
fn duplicate_tag_id_is_a_conflict() {
    let mut c = Cart::new(1, None, 1);
    c.add_upl(healthy_tag("T1", 100, 1, 1000, 1270)).unwrap();
    let r = c.add_upl(healthy_tag("T1", 200, 1, 500, 635));
    assert!(matches!(r, Err(CartError::Conflict(_))));
    assert_eq!(c.shopping_list.len(), 1);
    assert_eq!(c.upls_sku.len(), 1);
}

#[test]
fn depreciated_tag_is_its_own_priced_line() {
    let mut c = Cart::new(1, None, 1);
    let mut t = healthy_tag("D1", 100, 2, 500, 635);
    t.depreciated = true;
    c.add_upl(t).unwrap();
    assert!(c.shopping_list.is_empty());
    assert!(c.upls_sku.is_empty());
    assert_eq!(c.upls_unique.len(), 1);
    assert_eq!(c.total_net, 1000);
    assert_eq!(c.total_gross, 1270);
}

#[test]
fn derived_tag_contributes_its_flat_price() {
    let mut c = Cart::new(1, None, 1);
    let t = UplInfoObject {
        upl_id: "G1".to_string(),
        kind: UplKind::DerivedProduct { product_id: 7, amount: 250 },
        name: "opened".to_string(),
        retail_net_price: 300,
        vat: VAT::_27,
        retail_gross_price: 381,
        procurement_net_price: 0,
        best_before: None,
        depreciated: false,
    };
    c.add_upl(t).unwrap();
    assert!(c.shopping_list.is_empty());
    assert_eq!(c.upls_unique.len(), 1);
    assert_eq!(c.total_net, 300);
    assert_eq!(c.total_gross, 381);
}

#[test]
fn remove_upl_leaves_the_mismatch_for_close_to_catch() {
    let mut c = Cart::new(1, None, 1);
    c.add_upl(healthy_tag("T1", 100, 1, 1000, 1270)).unwrap();
    c.add_upl(healthy_tag("T2", 100, 1, 1000, 1270)).unwrap();
    assert_eq!(c.shopping_list[0].piece, 2);
    c.remove_upl("T2".to_string()).unwrap();
    assert_eq!(c.shopping_list[0].piece, 2);
    assert_eq!(c.upls_sku.len(), 1);
    c.add_payment(Payment { payment_id: "P1".to_string(), amount: c.payable });
    let r = c.close_cart();
    match r {
        Err(CartError::Rejected(m)) => assert_eq!(m, "sku/tag quantity mismatch"),
        _ => panic!("close must reject the unadjusted piece count"),
    }
    c.set_sku_piece(100, 1).unwrap();
    c.add_payment(Payment { payment_id: "P2".to_string(), amount: c.payable - 2540 });
    assert!(c.close_cart().is_ok());
}

#[test]
fn quantity_mismatch_rejects_in_both_directions() {
    let mut c = Cart::new(1, None, 1);
    c.add_upl(healthy_tag("T1", 100, 1, 1000, 1270)).unwrap();
    c.add_upl(healthy_tag("T2", 100, 1, 1000, 1270)).unwrap();
    c.set_sku_piece(100, 1).unwrap();
    c.add_payment(Payment { payment_id: "P1".to_string(), amount: c.payable });
    let r = c.close_cart();
    assert!(matches!(r, Err(CartError::Rejected(_))));
}

#[test]
fn remove_sku_requires_detached_tags() {
    let mut c = Cart::new(1, None, 1);
    c.add_upl(healthy_tag("T1", 100, 1, 1000, 1270)).unwrap();
    assert!(matches!(c.remove_sku(100), Err(CartError::Conflict(_))));
    c.remove_upl("T1".to_string()).unwrap();
    c.remove_sku(100).unwrap();
    assert!(c.shopping_list.is_empty());
    assert_eq!(c.total_gross, 0);
}

#[test]
fn set_sku_piece_needs_the_line() {
    let mut c = Cart::new(1, None, 1);
    assert!(matches!(c.set_sku_piece(100, 3), Err(CartError::NotFound(_))));
    c.add_sku(100, 2, "widget".to_string(), VAT::_27, 1000, 1270);
    c.set_sku_piece(100, 3).unwrap();
    assert_eq!(c.shopping_list[0].piece, 3);
    assert_eq!(c.total_net, 3000);
    assert_eq!(c.total_gross, 3810);
}

#[test]
fn burning_the_same_transaction_twice_is_a_conflict() {
    let mut c = Cart::new(1, None, 1);
    c.add_sku(100, 2, "widget".to_string(), VAT::_27, 1000, 1270);
    c.burn_points(5, 77, 100).unwrap();
    assert_eq!(c.total_gross, 2440);
    assert_eq!(c.total_net, 2000 - 79);
    let r = c.burn_points(5, 77, 50);
    assert!(matches!(r, Err(CartError::Conflict(_))));
    assert_eq!(c.total_gross, 2440);
}

#[test]
fn burning_below_zero_is_a_conflict() {
    let mut c = Cart::new(1, None, 1);
    c.add_sku(100, 2, "widget".to_string(), VAT::_27, 1000, 1270);
    c.burn_points(5, 77, 100).unwrap();
    let r = c.burn_points(5, 78, -101);
    assert!(matches!(r, Err(CartError::Conflict(_))));
    c.burn_points(5, 79, -100).unwrap();
    assert_eq!(c.total_gross, 2540);
}

#[test]
fn loyalty_card_is_unique_and_locked_by_points() {
    let mut c = Cart::new(1, None, 1);
    c.add_sku(100, 2, "widget".to_string(), VAT::_27, 1000, 1270);
    c.add_loyalty_card(11, "CARD-1".to_string(), LoyaltyLevel::L1).unwrap();
    let r = c.add_loyalty_card(12, "CARD-2".to_string(), LoyaltyLevel::L2);
    assert!(matches!(r, Err(CartError::Conflict(_))));
    c.burn_points(11, 1, 50).unwrap();
    assert!(matches!(c.remove_loyalty_card(), Err(CartError::Conflict(_))));
    c.burn_points(11, 2, -50).unwrap();
    c.remove_loyalty_card().unwrap();
    assert!(c.loyalty_card.is_none());
    assert!(matches!(c.remove_loyalty_card(), Err(CartError::NotFound(_))));
}

#[test]
fn invoice_without_customer_always_rejects() {
    let mut c = Cart::new(1, None, 1);
    c.set_document(DocumentKind::Invoice);
    let r = c.close_cart();
    match r {
        Err(CartError::Rejected(m)) => assert_eq!(m, "invoice requires customer"),
        _ => panic!("an invoice-kind cart without a customer must be rejected"),
    }
}

#[test]
fn transfer_requires_an_invoice() {
    let mut c = Cart::new(1, None, 1);
    c.set_payment(PaymentKind::Transfer);
    let r = c.close_cart();
    match r {
        Err(CartError::Rejected(m)) => assert_eq!(m, "a transfer requires an invoice"),
        _ => panic!("a transfer closing as a receipt must be rejected"),
    }
    c.set_document(DocumentKind::Invoice);
    c.add_customer(Some(Customer {
        id: 1,
        name: "Acme".to_string(),
        zip: "1111".to_string(),
        location: "Budapest".to_string(),
        street: "Fo utca 1".to_string(),
        tax_number: "123".to_string(),
    }));
    assert!(c.close_cart().is_ok());
}

#[test]
fn stale_cached_totals_reject_the_close() {
    let mut c = Cart::new(1, None, 1);
    c.add_sku(100, 2, "widget".to_string(), VAT::_27, 1000, 1270);
    c.remove_sku(100).unwrap();
    c.total_gross += 1;
    let r = c.close_cart();
    match r {
        Err(CartError::Rejected(m)) => assert_eq!(m, "totals inconsistent"),
        _ => panic!("a cart whose cache disagrees with the calculator must be rejected"),
    }
}

#[test]
fn card_settlement_gates_the_close_too() {
    let mut c = Cart::new(1, None, 1);
    c.add_upl(healthy_tag("T1", 100, 1, 1000, 1270)).unwrap();
    c.set_payment(PaymentKind::Card);
    let r = c.close_cart();
    match r {
        Err(CartError::Rejected(m)) => assert_eq!(m, "card payment is not settled"),
        _ => panic!("an unsettled card cart must be rejected"),
    }
    c.add_payment(Payment { payment_id: "P1".to_string(), amount: 1270 });
    assert!(c.close_cart().is_ok());
}

#[test]
fn payable_is_rounded_only_for_cash() {
    let mut c = Cart::new(1, None, 1);
    c.add_upl(healthy_tag("T1", 100, 2, 1000, 1270)).unwrap();
    c.add_commitment(1, 10).unwrap();
    assert_eq!(c.payable, 2285);
    c.set_payment(PaymentKind::Card);
    assert_eq!(c.payable, 2286);
    c.set_payment(PaymentKind::Transfer);
    assert_eq!(c.payable, 2286);
    c.set_payment(PaymentKind::Cash);
    assert_eq!(c.payable, 2285);
}

#[test]
fn balance_and_profit_follow_the_payments_and_procurement() {
    let mut c = Cart::new(1, None, 1);
    let mut t = healthy_tag("T1", 100, 2, 1000, 1270);
    t.procurement_net_price = 1500;
    c.add_upl(t).unwrap();
    assert_eq!(c.get_payable(), 2540);
    assert_eq!(c.get_balance(), 2540);
    c.add_payment(Payment { payment_id: "P1".to_string(), amount: 1000 });
    assert_eq!(c.get_balance(), 1540);
    assert_eq!(c.get_payment_total(), 1000);
    assert_eq!(c.get_profit_net(), 2000 - 1500);
}

#[test]
fn loyalty_levels_parse_and_print() {
    assert!(matches!(LoyaltyLevel::from_str("L1"), Ok(LoyaltyLevel::L1)));
    assert!(matches!(LoyaltyLevel::from_str("l1"), Ok(LoyaltyLevel::L1)));
    assert!(matches!(LoyaltyLevel::from_str("L2"), Ok(LoyaltyLevel::L2)));
    assert!(matches!(LoyaltyLevel::from_str("l2"), Ok(LoyaltyLevel::L2)));
    assert!(LoyaltyLevel::from_str("L3").is_err());
    assert_eq!(LoyaltyLevel::L1.to_string(), "L1");
    assert_eq!(LoyaltyLevel::L2.to_string(), "L2");
}

#[test]
fn default_cart_is_empty_under_the_nil_id() {
    let c = Cart::default();
    assert_eq!(c.id, 0);
    assert_eq!(c.get_id(), 0);
    assert!(c.shopping_list.is_empty());
    assert_eq!(c.total_gross, 0);
    assert_eq!(c.payable, 0);
    assert!(matches!(c.payment_kind, PaymentKind::Cash));
    assert_eq!(c.date_completion, c.payment_duedate);
}

#[test]
fn mutators_keep_the_gross_equation() {
    let mut c = Cart::new(1, None, 1);
    c.add_sku(100, 2, "widget".to_string(), VAT::_27, 1000, 1270);
    c.add_sku(200, 1, "gadget".to_string(), VAT::_5, 400, 420);
    c.add_commitment(1, 25).unwrap();
    c.burn_points(5, 1, 30).unwrap();
    let items_gross = c.get_items_total_gross();
    let discount = c.get_commitment_discount_value();
    let balance = c.get_burned_points_balance();
    assert_eq!(c.total_gross, items_gross - discount - balance);
    c.set_sku_piece(200, 4).unwrap();
    let items_gross = c.get_items_total_gross();
    let discount = c.get_commitment_discount_value();
    let balance = c.get_burned_points_balance();
    assert_eq!(c.total_gross, items_gross - discount - balance);
    c.remove_sku(200).unwrap();
    let items_gross = c.get_items_total_gross();
    let discount = c.get_commitment_discount_value();
    let balance = c.get_burned_points_balance();
    assert_eq!(c.total_gross, items_gross - discount - balance);
}
