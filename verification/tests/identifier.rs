use shopify_gql::common::{Id, Money, WeightUnit};
use shopify_gql::common::parse_i32;
use shopify_gql::error::ShopifyGqlError;

#[test]
fn can_create_id() {
    let id1 = Id::product("1235").unwrap();
    assert_eq!(id1.inner(), "gid://shopify/Product/1235");

    let id2 = Id::product("abcd").unwrap_err();

    assert_eq!(id2.message(), "Invalid ID (abcd): The ID must only be numbers")
}

#[test]
fn id_round_trip_recovers_digits() {
    let id = Id::product("7343141159089").unwrap();
    assert_eq!(id.payload(), "7343141159089");

    let vid = Id::product_variant("42235355201713").unwrap();
    assert_eq!(vid.payload(), "42235355201713");

    let lid = Id::location("1").unwrap();
    assert_eq!(lid.inner(), "gid://shopify/Location/1");
    assert_eq!(lid.payload(), "1");
}

#[test]
fn id_rejects_empty_and_mixed_payloads() {
    assert!(matches!(
        Id::product(""),
        Err(ShopifyGqlError::InvalidIdentifier(_))
    ));
    assert!(matches!(
        Id::product("12a4"),
        Err(ShopifyGqlError::InvalidIdentifier(_))
    ));
    assert!(matches!(
        Id::product_variant("-12"),
        Err(ShopifyGqlError::InvalidIdentifier(_))
    ));
    assert!(matches!(
        Id::location("12 4"),
        Err(ShopifyGqlError::InvalidIdentifier(_))
    ));
}

#[test]
fn id_is_numeric_checks_digits_only() {
    assert!(Id::is_numeric("0123456789"));
    assert!(!Id::is_numeric("12.5"));
    assert!(!Id::is_numeric("abcd"));
}

#[test]
fn id_equality_is_canonical_string_equality() {
    let a = Id::product("1235").unwrap();
    let b = Id::product("1235").unwrap();
    let c = Id::product("1236").unwrap();
    assert!(a == b);
    assert!(a != c);
}

#[test]
fn money_parses_decimal_strings() {
    let m = Money::try_from(String::from("42.99")).unwrap();
    assert_eq!(m.inner(), "42.99");
    let n = Money::try_from(String::from("-10")).unwrap();
    assert_eq!(n.inner(), "-10");
    assert!(Money::try_from(String::from("22.0")).is_ok());
}

#[test]
fn money_rejects_malformed_strings() {
    for bad in ["", "-", "1.", ".5", "1.2.3", "abc", "1a", "--2", "1 2"] {
        let e = Money::try_from(String::from(bad)).unwrap_err();
        assert!(
            matches!(e, ShopifyGqlError::InvalidScalar(ref raw) if raw == bad),
            "expected InvalidScalar for {:?}",
            bad
        );
    }
}

#[test]
fn weight_unit_decodes_known_tags_only() {
    assert!(matches!(WeightUnit::parse("GRAMS"), Ok(WeightUnit::GRAMS)));
    assert!(matches!(
        WeightUnit::parse("KILOGRAMS"),
        Ok(WeightUnit::KILOGRAMS)
    ));
    assert!(matches!(WeightUnit::parse("OUNCES"), Ok(WeightUnit::OUNCES)));
    assert!(matches!(WeightUnit::parse("POUNDS"), Ok(WeightUnit::POUNDS)));
    assert!(matches!(
        WeightUnit::parse("STONES"),
        Err(ShopifyGqlError::InvalidScalar(_))
    ));
    assert!(matches!(
        WeightUnit::parse("grams"),
        Err(ShopifyGqlError::InvalidScalar(_))
    ));
}

#[test]
fn parse_i32_handles_signs_bounds_and_junk() {
    assert_eq!(parse_i32("0").unwrap(), 0);
    assert_eq!(parse_i32("10").unwrap(), 10);
    assert_eq!(parse_i32("-5").unwrap(), -5);
    assert_eq!(parse_i32("2147483647").unwrap(), i32::MAX);
    assert_eq!(parse_i32("-2147483648").unwrap(), i32::MIN);
    assert!(parse_i32("2147483648").is_err());
    assert!(parse_i32("-2147483649").is_err());
    assert!(parse_i32("99999999999999999999").is_err());
    assert!(parse_i32("1.5").is_err());
    assert!(parse_i32("").is_err());
    assert!(parse_i32("-").is_err());
}
