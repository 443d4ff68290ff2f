use osp::node::error::AppError;
use osp::node::validation::{max_len, require_str, validate_price, validate_price_amount, validate_url};

fn message(r: Result<(), AppError>) -> String {
    match r {
        Err(AppError::Validation(m)) => m,
        other => panic!("unexpected {:?}", other),
    }
}

#[test]
fn url_must_be_http_or_https() {
    assert!(validate_url("url", "https://example.com/p").is_ok());
    assert!(validate_url("url", "http://example.com").is_ok());
    assert!(validate_url("url", "HTTP://example.com").is_ok());
    assert_eq!(message(validate_url("url", "ftp://example.com")), "'url' must be a valid http(s) URL");
    assert_eq!(message(validate_url("cover_url", "not a url")), "'cover_url' must be a valid http(s) URL");
    assert!(validate_url("url", "").is_err());
    assert!(validate_url("url", "mailto:me@example.com").is_err());
}

#[test]
fn required_text_must_not_be_blank() {
    assert!(require_str("name", "x").is_ok());
    assert!(require_str("name", "  x  ").is_ok());
    assert_eq!(message(require_str("name", "")), "'name' is required");
    assert_eq!(message(require_str("name", " \t\n")), "'name' is required");
    // U+3000 IDEOGRAPHIC SPACE and U+00A0 NO-BREAK SPACE are white space too
    assert_eq!(message(require_str("url", "\u{3000}\u{a0}")), "'url' is required");
    // U+200B ZERO WIDTH SPACE is not
    assert!(require_str("name", "\u{200b}").is_ok());
}

#[test]
fn max_len_counts_bytes() {
    assert!(max_len("name", "abc", 3).is_ok());
    assert_eq!(message(max_len("name", "abcd", 3)), "'name' must be at most 3 characters (got 4)");
    assert_eq!(message(max_len("name", "ééé", 5)), "'name' must be at most 5 characters (got 6)");
    assert!(max_len("description", "", 0).is_ok());
    assert_eq!(
        message(max_len("description", &"x".repeat(1001), 1000)),
        "'description' must be at most 1000 characters (got 1001)"
    );
}

#[test]
fn price_amount_must_not_be_negative() {
    assert!(validate_price_amount(None).is_ok());
    assert!(validate_price_amount(Some(0)).is_ok());
    assert!(validate_price_amount(Some(i64::MAX)).is_ok());
    assert_eq!(message(validate_price_amount(Some(-1))), "'price_amount' must be >= 0");
    assert_eq!(message(validate_price_amount(Some(i64::MIN))), "'price_amount' must be >= 0");
}

#[test]
fn price_rules_in_order() {
    assert!(validate_price("free", None, None).is_ok());
    assert!(validate_price("fixed", Some(100), Some("EUR")).is_ok());
    assert_eq!(
        message(validate_price("fixed", None, None)),
        "'price_amount' is required for price model 'fixed'"
    );
    assert_eq!(
        message(validate_price("subscription", None, Some("EUR"))),
        "'price_amount' is required for price model 'subscription'"
    );
    assert_eq!(
        message(validate_price("pay_what_you_want", Some(5), None)),
        "'price_currency' is required when 'price_amount' is set"
    );
    assert_eq!(message(validate_price("fixed", Some(-5), Some("EUR"))), "'price_amount' must be >= 0");
    // only the exact lower-case names need an amount
    assert!(validate_price("Fixed", None, None).is_ok());
}
