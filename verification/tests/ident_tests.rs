use damq_backend::ident::parse_external_id;

#[test]
fn plain_numbers_are_read() {
    assert_eq!(parse_external_id("42"), Some(42));
    assert_eq!(parse_external_id("0"), Some(0));
    assert_eq!(parse_external_id("007"), Some(7));
}

#[test]
fn signs_are_honoured() {
    assert_eq!(parse_external_id("-7"), Some(-7));
    assert_eq!(parse_external_id("+10"), Some(10));
    assert_eq!(parse_external_id("-0"), Some(0));
}

#[test]
fn malformed_texts_are_rejected() {
    assert_eq!(parse_external_id(""), None);
    assert_eq!(parse_external_id("-"), None);
    assert_eq!(parse_external_id("+"), None);
    assert_eq!(parse_external_id("12a"), None);
    assert_eq!(parse_external_id("a12"), None);
    assert_eq!(parse_external_id("1 2"), None);
    assert_eq!(parse_external_id("--5"), None);
}

#[test]
fn the_domain_bounds_are_exact() {
    assert_eq!(
        parse_external_id("9223372036854775807"),
        Some(9223372036854775807)
    );
    assert_eq!(
        parse_external_id("-9223372036854775808"),
        Some(-9223372036854775808)
    );
    assert_eq!(parse_external_id("9223372036854775808"), None);
    assert_eq!(parse_external_id("-9223372036854775809"), None);
}

#[test]
fn far_too_long_numbers_are_rejected() {
    assert_eq!(parse_external_id("999999999999999999999999999999"), None);
    assert_eq!(parse_external_id("-999999999999999999999999999999"), None);
}
