use osp::node::admin::{prepare_new_product, prepare_product_update, prepare_shop_update, CreateProduct, UpdateProduct, UpdateShop};
use osp::node::models::{ProductRow, ShopRow};
use osp::node::osp::{row_to_product, shop_manifest_document};
use osp::protocol::validation::{validate_product, validate_shop_manifest};
use url::Url;

fn keep<T>(new: Option<T>, old: Option<T>) -> Option<T> {
    if new.is_some() { new } else { old }
}

fn created_row() -> ProductRow {
    let p = prepare_new_product(CreateProduct {
        name: "Preset bundle".into(),
        description: None,
        long_description: None,
        url: "https://shop.example/presets".into(),
        product_type: Some("content".into()),
        price_model: "subscription".into(),
        price_amount: Some(900),
        price_currency: Some("USD".into()),
        license_spdx: Some("MIT".into()),
        license_name: None,
        license_url: None,
        cover_url: None,
        categories: Some(vec!["presets".into(), "a,b".into()]),
        tags: Some(vec!["ünïcode".into()]),
        version: None,
    })
    .unwrap();
    ProductRow {
        id: Some(p.id),
        name: Some(p.name),
        description: p.description,
        long_description: p.long_description,
        url: Some(p.url),
        product_type: Some(p.product_type),
        price_model: Some(p.price_model),
        price_amount: p.price_amount,
        price_currency: p.price_currency,
        license_spdx: p.license_spdx,
        license_name: p.license_name,
        license_url: p.license_url,
        cover_url: p.cover_url,
        assets: None,
        categories: Some(p.categories),
        tags: Some(p.tags),
        version: p.version,
        created_at: Some("2024-01-01T00:00:00Z".into()),
        updated_at: None,
    }
}

#[test]
fn created_product_lists_as_valid_with_its_lists() {
    let base = Url::parse("https://shop.example").unwrap();
    let row = created_row();
    let p = row_to_product(row, &base);
    assert!(validate_product(&p).is_ok());
    assert_eq!(p.categories, vec!["presets".to_string(), "a,b".to_string()]);
    assert_eq!(p.tags, vec!["ünïcode".to_string()]);
    assert_eq!(p.url.as_str(), "https://shop.example/presets");
}

#[test]
fn accepted_update_keeps_product_valid() {
    let base = Url::parse("https://shop.example").unwrap();
    let row = created_row();
    let c = prepare_product_update(
        1,
        UpdateProduct {
            name: Some("Renamed".into()),
            description: Some("é".repeat(500)),
            long_description: None,
            url: None,
            product_type: None,
            price_model: Some("free".into()),
            price_amount: None,
            price_currency: None,
            license_spdx: None,
            license_name: None,
            license_url: None,
            cover_url: None,
            categories: Some(vec![]),
            tags: None,
            version: Some("2".into()),
        },
    )
    .unwrap();
    let updated = ProductRow {
        id: row.id,
        name: keep(c.name, row.name),
        description: keep(c.description, row.description),
        long_description: keep(c.long_description, row.long_description),
        url: keep(c.url, row.url),
        product_type: keep(c.product_type, row.product_type),
        price_model: keep(c.price_model, row.price_model),
        price_amount: keep(c.price_amount, row.price_amount),
        price_currency: keep(c.price_currency, row.price_currency),
        license_spdx: keep(c.license_spdx, row.license_spdx),
        license_name: keep(c.license_name, row.license_name),
        license_url: keep(c.license_url, row.license_url),
        cover_url: keep(c.cover_url, row.cover_url),
        assets: row.assets,
        categories: keep(c.categories, row.categories),
        tags: keep(c.tags, row.tags),
        version: keep(c.version, row.version),
        created_at: row.created_at,
        updated_at: Some("2024-02-01T00:00:00Z".into()),
    };
    let p = row_to_product(updated, &base);
    assert!(validate_product(&p).is_ok());
    assert_eq!(p.name, "Renamed");
    assert!(p.categories.is_empty());
    assert_eq!(p.tags, vec!["ünïcode".to_string()]);
}

#[test]
fn accepted_shop_update_is_served() {
    let base = Url::parse("https://shop.example").unwrap();
    let row = ShopRow {
        id: 1,
        name: "Shop".into(),
        description: None,
        owner: None,
        email: None,
        lang: None,
        currency: None,
        logo_url: None,
        categories: None,
        tags: None,
        links: None,
    };
    let c = prepare_shop_update(UpdateShop {
        name: Some("Better shop".into()),
        description: Some("d".repeat(1000)),
        owner: None,
        email: None,
        lang: Some("en".into()),
        currency: None,
        logo_url: Some("https://cdn.example/l.png".into()),
        categories: Some(vec!["fonts".into(), "\"quoted\"".into()]),
        tags: Some(vec![]),
        links: None,
    })
    .unwrap();
    let updated = ShopRow {
        id: row.id,
        name: c.name.unwrap_or(row.name),
        description: keep(c.description, row.description),
        owner: keep(c.owner, row.owner),
        email: keep(c.email, row.email),
        lang: keep(c.lang, row.lang),
        currency: keep(c.currency, row.currency),
        logo_url: keep(c.logo_url, row.logo_url),
        categories: keep(c.categories, row.categories),
        tags: keep(c.tags, row.tags),
        links: keep(c.links, row.links),
    };
    let m = shop_manifest_document(updated, base, None);
    assert!(validate_shop_manifest(&m).is_ok());
    assert_eq!(m.categories, vec!["fonts".to_string(), "\"quoted\"".to_string()]);
    assert!(m.tags.is_empty());
    assert_eq!(m.logo_url.unwrap().as_str(), "https://cdn.example/l.png");
}
