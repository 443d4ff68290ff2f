use osp::node::admin::{
    deletion_outcome, prepare_new_product, prepare_product_update, prepare_shop_update, require_auth, CreateProduct,
    PaginationParams, UpdateProduct, UpdateShop,
};
use osp::node::admin::{admin_product_page, admin_shop_view};
use osp::node::config::{hash_password, verify_password};
use osp::node::models::{ProductRow, ShopRow};
use osp::node::osp::PaginationParams as ListingParams;
use osp::node::error::AppError;

fn create_body() -> CreateProduct {
    CreateProduct {
        name: "Font pack".into(),
        description: Some("Ten fonts".into()),
        long_description: None,
        url: "https://shop.example/fonts".into(),
        product_type: None,
        price_model: "fixed".into(),
        price_amount: Some(1200),
        price_currency: Some("EUR".into()),
        license_spdx: None,
        license_name: None,
        license_url: None,
        cover_url: Some(String::new()),
        categories: Some(vec!["fonts".into()]),
        tags: None,
        version: Some("1.0".into()),
    }
}

fn update_body() -> UpdateProduct {
    UpdateProduct {
        name: None,
        description: None,
        long_description: None,
        url: None,
        product_type: None,
        price_model: None,
        price_amount: None,
        price_currency: None,
        license_spdx: None,
        license_name: None,
        license_url: None,
        cover_url: None,
        categories: None,
        tags: None,
        version: None,
    }
}

fn shop_body() -> UpdateShop {
    UpdateShop {
        name: None,
        description: None,
        owner: None,
        email: None,
        lang: None,
        currency: None,
        logo_url: None,
        categories: None,
        tags: None,
        links: None,
    }
}

fn validation_message<T: std::fmt::Debug>(r: Result<T, AppError>) -> String {
    match r {
        Err(AppError::Validation(m)) => m,
        other => panic!("unexpected {:?}", other),
    }
}

#[test]
fn password_hash_round_trip_and_auth() {
    let hash = hash_password("s3cret").unwrap();
    assert!(hash.starts_with("$argon2id$"));
    assert!(verify_password("s3cret", &hash));
    assert!(!verify_password("S3cret", &hash));
    assert!(!verify_password("s3cret", "not a phc string"));
    assert!(require_auth(Some("s3cret"), &hash).is_ok());
    assert!(matches!(require_auth(Some("nope"), &hash), Err(AppError::Unauthorized)));
    assert!(matches!(require_auth(None, &hash), Err(AppError::Unauthorized)));
    assert!(matches!(require_auth(Some("s3cret"), "plain"), Err(AppError::Unauthorized)));
}

#[test]
fn create_product_is_stored_with_defaults() {
    let p = prepare_new_product(create_body()).unwrap();
    assert_eq!(p.id.len(), 36);
    assert_eq!(p.product_type, "download");
    assert_eq!(p.categories, "[\"fonts\"]");
    assert_eq!(p.tags, "[]");
    assert_eq!(p.price_model, "fixed");
    assert_eq!(p.price_amount, Some(1200));
    assert_eq!(p.cover_url, Some(String::new()));
    let q = prepare_new_product(create_body()).unwrap();
    assert_ne!(p.id, q.id);
}

#[test]
fn create_product_refusals_in_order() {
    let mut b = create_body();
    b.name = " ".into();
    b.url = "ftp://x".into();
    assert_eq!(validation_message(prepare_new_product(b)), "'name' is required");
    let mut b = create_body();
    b.name = "n".repeat(201);
    assert_eq!(
        validation_message(prepare_new_product(b)),
        "'name' must be at most 200 characters (got 201)"
    );
    let mut b = create_body();
    b.url = String::new();
    assert_eq!(validation_message(prepare_new_product(b)), "'url' is required");
    let mut b = create_body();
    b.url = "ftp://x".into();
    assert_eq!(validation_message(prepare_new_product(b)), "'url' must be a valid http(s) URL");
    let mut b = create_body();
    b.description = Some("d".repeat(1001));
    assert_eq!(
        validation_message(prepare_new_product(b)),
        "'description' must be at most 1000 characters (got 1001)"
    );
    let mut b = create_body();
    b.cover_url = Some("cover".into());
    assert_eq!(validation_message(prepare_new_product(b)), "'cover_url' must be a valid http(s) URL");
    let mut b = create_body();
    b.price_amount = None;
    assert_eq!(
        validation_message(prepare_new_product(b)),
        "'price_amount' is required for price model 'fixed'"
    );
}

#[test]
fn update_product_checks_existence_first() {
    let mut b = update_body();
    b.name = Some(String::new());
    assert!(matches!(prepare_product_update(0, b), Err(AppError::NotFound)));
    let mut b = update_body();
    b.name = Some(String::new());
    assert_eq!(validation_message(prepare_product_update(1, b)), "'name' is required");
}

#[test]
fn update_product_prices_default_to_free() {
    let mut b = update_body();
    b.price_amount = Some(300);
    assert_eq!(
        validation_message(prepare_product_update(1, b)),
        "'price_currency' is required when 'price_amount' is set"
    );
    let mut b = update_body();
    b.price_model = Some("subscription".into());
    assert_eq!(
        validation_message(prepare_product_update(1, b)),
        "'price_amount' is required for price model 'subscription'"
    );
    let mut b = update_body();
    b.price_currency = Some("EUR".into());
    b.url = Some("https://x.example".into());
    b.tags = Some(vec!["a \"quoted\" tag".into()]);
    let c = prepare_product_update(1, b).unwrap();
    assert_eq!(c.price_currency.as_deref(), Some("EUR"));
    assert_eq!(c.tags.as_deref(), Some("[\"a \\\"quoted\\\" tag\"]"));
    assert_eq!(c.categories, None);
}

#[test]
fn update_product_url_may_not_be_empty() {
    let mut b = update_body();
    b.url = Some(String::new());
    assert_eq!(validation_message(prepare_product_update(3, b)), "'url' must be a valid http(s) URL");
    let mut b = update_body();
    b.cover_url = Some(String::new());
    assert!(prepare_product_update(3, b).is_ok());
}

#[test]
fn shop_update_rules() {
    let mut b = shop_body();
    b.name = Some("n".repeat(121));
    assert_eq!(
        validation_message(prepare_shop_update(b)),
        "'name' must be at most 120 characters (got 121)"
    );
    let mut b = shop_body();
    b.logo_url = Some("logo.png".into());
    assert_eq!(validation_message(prepare_shop_update(b)), "'logo_url' must be a valid http(s) URL");
    let mut b = shop_body();
    b.logo_url = Some(String::new());
    b.categories = Some(vec!["fonts".into(), "tools".into()]);
    b.links = Some("{\"github\":\"me\"}".into());
    let c = prepare_shop_update(b).unwrap();
    assert_eq!(c.logo_url.as_deref(), Some(""));
    assert_eq!(c.categories.as_deref(), Some("[\"fonts\",\"tools\"]"));
    assert_eq!(c.tags, None);
    assert_eq!(c.links.as_deref(), Some("{\"github\":\"me\"}"));
}

#[test]
fn deletion_of_missing_product() {
    assert!(matches!(deletion_outcome(0), Err(AppError::NotFound)));
    assert!(deletion_outcome(1).is_ok());
}

#[test]
fn admin_pages_default_to_twenty() {
    let w = PaginationParams { page: None, per_page: None }.window().unwrap();
    assert_eq!((w.page, w.per_page, w.offset), (1, 20, 0));
    let w = PaginationParams { page: Some(3), per_page: Some(500) }.window().unwrap();
    assert_eq!((w.page, w.per_page, w.offset), (3, 100, 200));
    let w = PaginationParams { page: Some(-4), per_page: Some(0) }.window().unwrap();
    assert_eq!((w.page, w.per_page, w.offset), (1, 1, 0));
    assert!(PaginationParams { page: Some(i64::MAX), per_page: Some(2) }.window().is_none());
    let w = PaginationParams { page: Some(i64::MAX), per_page: Some(1) }.window().unwrap();
    assert_eq!(w.offset, i64::MAX - 1);
}

#[test]
fn new_product_ids_are_uuid_v4() {
    let p = prepare_new_product(create_body()).unwrap();
    let id: Vec<char> = p.id.chars().collect();
    assert_eq!(id.len(), 36);
    for (i, c) in id.iter().enumerate() {
        if [8, 13, 18, 23].contains(&i) {
            assert_eq!(*c, '-');
        } else {
            assert!(c.is_ascii_hexdigit() && !c.is_ascii_uppercase());
        }
    }
    assert_eq!(id[14], '4');
    assert!(['8', '9', 'a', 'b'].contains(&id[19]));
}

#[test]
fn admin_views_parse_json_columns() {
    let shop = ShopRow {
        id: 1,
        name: "Shop".into(),
        description: None,
        owner: Some("Ada".into()),
        email: None,
        lang: None,
        currency: None,
        logo_url: Some("not checked".into()),
        categories: Some("[\"fonts\"]".into()),
        tags: Some("not json".into()),
        links: Some("{\"github\":\"ada\"}".into()),
    };
    let v = admin_shop_view(&shop);
    assert_eq!(v.name, "Shop");
    assert_eq!(v.logo_url.as_deref(), Some("not checked"));
    assert_eq!(v.categories, Some(serde_json::Value::Array(vec![serde_json::Value::String("fonts".into())])));
    assert_eq!(v.tags, None);
    assert_eq!(v.links.unwrap()["github"], serde_json::Value::String("ada".into()));

    let row = ProductRow {
        id: Some("p1".into()),
        name: Some("Pack".into()),
        description: None,
        long_description: Some("not listed".into()),
        url: Some("https://x.example".into()),
        product_type: None,
        price_model: Some("fixed".into()),
        price_amount: Some(5),
        price_currency: Some("EUR".into()),
        license_spdx: None,
        license_name: None,
        license_url: None,
        cover_url: None,
        assets: None,
        categories: Some("[1, \"two\"]".into()),
        tags: None,
        version: None,
        created_at: None,
        updated_at: None,
    };
    let w = PaginationParams { page: Some(2), per_page: Some(5) }.window().unwrap();
    let page = admin_product_page(w, 12, &vec![row]);
    assert_eq!((page.page, page.per_page, page.total), (2, 5, 12));
    assert_eq!(page.products.len(), 1);
    let s = &page.products[0];
    assert_eq!(s.id.as_deref(), Some("p1"));
    assert_eq!(s.price_amount, Some(5));
    assert_eq!(s.categories.as_ref().unwrap()[1], serde_json::Value::String("two".into()));
    assert_eq!(s.tags, None);
}

#[test]
fn following_pages_tiles_the_table() {
    let mut page = ListingParams { page: None, per_page: Some(7) }.window().unwrap();
    let mut seen = 0;
    assert_eq!(page.offset, 0);
    loop {
        assert_eq!(page.offset, seen);
        seen += page.per_page;
        if page.offset + page.per_page >= 30 {
            break;
        }
        page = ListingParams { page: Some(page.page + 1), per_page: Some(page.per_page) }.window().unwrap();
    }
    assert_eq!(page.page, 5);
    assert!(seen >= 30);
}
