use osp::protocol::manifest::ShopManifest;
use osp::protocol::product::{PriceModel, Product, ProductPrice, ProductType};
use osp::protocol::validation::{validate_product, validate_shop_manifest, ValidationError};
use url::Url;

fn make_product(model: PriceModel, amount: Option<u64>, currency: Option<&str>) -> Product {
    Product {
        id: "test-product".into(),
        name: "Test Product".into(),
        description: None,
        long_description: None,
        url: Url::parse("https://example.com/products/test").unwrap(),
        product_type: ProductType::Download,
        price: ProductPrice {
            model,
            amount,
            currency: currency.map(str::to_string),
        },
        license: None,
        cover_url: None,
        assets: vec![],
        categories: vec![],
        tags: vec![],
        created_at: None,
        updated_at: None,
        version: None,
    }
}

fn make_manifest(version: &str, name: &str, description: Option<String>) -> ShopManifest {
    ShopManifest {
        osp_version: version.to_string(),
        url: Url::parse("https://shop.example").unwrap(),
        name: name.to_string(),
        description,
        owner: None,
        email: None,
        lang: None,
        currency: None,
        logo_url: None,
        categories: vec![],
        tags: vec![],
        links: None,
    }
}

#[test]
fn free_product_is_valid() {
    let p = make_product(PriceModel::Free, None, None);
    assert!(validate_product(&p).is_ok());
}

#[test]
fn fixed_product_requires_amount() {
    let p = make_product(PriceModel::Fixed, None, None);
    assert!(matches!(validate_product(&p), Err(ValidationError::MissingAmount(_))));
}

#[test]
fn fixed_product_requires_currency() {
    let p = make_product(PriceModel::Fixed, Some(1000), None);
    assert!(matches!(validate_product(&p), Err(ValidationError::MissingCurrency)));
}

#[test]
fn fixed_product_valid() {
    let p = make_product(PriceModel::Fixed, Some(1000), Some("EUR"));
    assert!(validate_product(&p).is_ok());
}

#[test]
fn subscription_requires_amount_and_names_the_model() {
    let p = make_product(PriceModel::Subscription, None, Some("EUR"));
    match validate_product(&p) {
        Err(ValidationError::MissingAmount(m)) => assert_eq!(m, "Subscription"),
        other => panic!("unexpected {:?}", other),
    }
    let p = make_product(PriceModel::Fixed, None, None);
    match validate_product(&p) {
        Err(e) => assert_eq!(e.message(), "price.amount is required for model 'Fixed'"),
        Ok(()) => panic!("accepted"),
    }
}

#[test]
fn pay_what_you_want_with_amount_needs_currency() {
    let p = make_product(PriceModel::PayWhatYouWant, None, None);
    assert!(validate_product(&p).is_ok());
    let p = make_product(PriceModel::PayWhatYouWant, Some(500), None);
    assert!(matches!(validate_product(&p), Err(ValidationError::MissingCurrency)));
    let p = make_product(PriceModel::Free, Some(0), None);
    assert!(matches!(validate_product(&p), Err(ValidationError::MissingCurrency)));
}

#[test]
fn product_needs_id_before_name() {
    let mut p = make_product(PriceModel::Fixed, None, None);
    p.id = String::new();
    p.name = String::new();
    assert!(matches!(validate_product(&p), Err(ValidationError::MissingField("id"))));
    p.id = "x".into();
    assert!(matches!(validate_product(&p), Err(ValidationError::MissingField("name"))));
    p.name = " ".into();
    // a name of spaces is not empty for the protocol
    assert!(matches!(validate_product(&p), Err(ValidationError::MissingAmount(_))));
}

#[test]
fn product_description_limit_counts_bytes() {
    let mut p = make_product(PriceModel::Free, None, None);
    p.description = Some("a".repeat(1000));
    assert!(validate_product(&p).is_ok());
    p.description = Some("a".repeat(1001));
    match validate_product(&p) {
        Err(ValidationError::TooLong { field, max, got }) => {
            assert_eq!((field, max, got), ("description", 1000, 1001));
        }
        other => panic!("unexpected {:?}", other),
    }
    // 500 two-byte characters: 1000 bytes, accepted; one more is 1002 bytes
    p.description = Some("é".repeat(500));
    assert!(validate_product(&p).is_ok());
    p.description = Some("é".repeat(501));
    match validate_product(&p) {
        Err(e) => assert_eq!(e.message(), "field 'description' is too long (max 1000 chars, got 1002)"),
        Ok(()) => panic!("accepted"),
    }
}

#[test]
fn manifest_rules_in_order() {
    let m = make_manifest("1", "Shop", None);
    assert!(validate_shop_manifest(&m).is_ok());
    let m = make_manifest("2", "", Some("a".repeat(2000)));
    match validate_shop_manifest(&m) {
        Err(ValidationError::UnsupportedVersion(v)) => assert_eq!(v, "2"),
        other => panic!("unexpected {:?}", other),
    }
    let m = make_manifest("1", "", Some("a".repeat(2000)));
    assert!(matches!(validate_shop_manifest(&m), Err(ValidationError::MissingField("name"))));
    let m = make_manifest("1", "Shop", Some("a".repeat(1001)));
    assert!(matches!(
        validate_shop_manifest(&m),
        Err(ValidationError::TooLong { field: "description", max: 1000, got: 1001 })
    ));
    let m = make_manifest("1.0", "Shop", None);
    assert!(matches!(validate_shop_manifest(&m), Err(ValidationError::UnsupportedVersion(_))));
}

#[test]
fn error_messages() {
    assert_eq!(
        ValidationError::UnsupportedVersion("7".into()).message(),
        "osp_version must be '1', got '7'"
    );
    assert_eq!(ValidationError::MissingField("id").message(), "field 'id' is required");
    assert_eq!(
        ValidationError::TooLong { field: "description", max: 1000, got: 12345 }.message(),
        "field 'description' is too long (max 1000 chars, got 12345)"
    );
    assert_eq!(
        ValidationError::MissingCurrency.message(),
        "price.currency is required when amount is set"
    );
    assert_eq!(
        ValidationError::MissingAmount("Fixed".into()).message(),
        "price.amount is required for model 'Fixed'"
    );
}

#[test]
fn price_model_debug_names() {
    assert_eq!(PriceModel::Fixed.debug_name(), format!("{:?}", PriceModel::Fixed));
    assert_eq!(PriceModel::PayWhatYouWant.debug_name(), "PayWhatYouWant");
    assert_eq!(PriceModel::Free.debug_name(), "Free");
    assert_eq!(PriceModel::Subscription.debug_name(), "Subscription");
}
