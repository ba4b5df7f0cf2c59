use purchase_core::vat::{vat_multiply, VAT};

#[test]
fn multiplier_applies_the_rate_and_rounds() {
    assert_eq!(vat_multiply(1000, VAT::_27), 1270);
    assert_eq!(vat_multiply(2000, VAT::_27), 2540);
    assert_eq!(vat_multiply(1000, VAT::_18), 1180);
    assert_eq!(vat_multiply(1000, VAT::_5), 1050);
    assert_eq!(vat_multiply(999, VAT::_27), 1269);
    assert_eq!(vat_multiply(1, VAT::_27), 1);
    assert_eq!(vat_multiply(2, VAT::_27), 3);
    assert_eq!(vat_multiply(0, VAT::_27), 0);
}

#[test]
fn exempt_rates_multiply_by_one() {
    assert_eq!(vat_multiply(1234, VAT::AAM), 1234);
    assert_eq!(vat_multiply(1234, VAT::FAD), 1234);
    assert_eq!(vat_multiply(1234, VAT::TAM), 1234);
}

#[test]
fn vat_codes_parse_from_text() {
    assert!(matches!(VAT::from_str("AAM"), Ok(VAT::AAM)));
    assert!(matches!(VAT::from_str("aam"), Ok(VAT::AAM)));
    assert!(matches!(VAT::from_str("FAD"), Ok(VAT::FAD)));
    assert!(matches!(VAT::from_str("fad"), Ok(VAT::FAD)));
    assert!(matches!(VAT::from_str("TAM"), Ok(VAT::TAM)));
    assert!(matches!(VAT::from_str("tam"), Ok(VAT::TAM)));
    assert!(matches!(VAT::from_str("5"), Ok(VAT::_5)));
    assert!(matches!(VAT::from_str("18"), Ok(VAT::_18)));
    assert!(matches!(VAT::from_str("27"), Ok(VAT::_27)));
    assert!(VAT::from_str("19").is_err());
    assert!(VAT::from_str("").is_err());
    assert!(VAT::from_str("AAMM").is_err());
}

#[test]
fn vat_codes_print_and_round_trip() {
    for v in [VAT::AAM, VAT::FAD, VAT::TAM, VAT::_5, VAT::_18, VAT::_27] {
        let text = v.to_string();
        let back = VAT::from_str(&text).unwrap();
        assert_eq!(back, v);
    }
    assert_eq!(VAT::_27.to_string(), "27");
    assert_eq!(VAT::AAM.to_string(), "AAM");
}
