use osp::node::models::{ProductRow, ShopRow};
use osp::node::osp::{
    products_listing_document, row_to_product, shop_manifest_document, try_row_to_product, PaginationParams,
};
use osp::protocol::manifest::ShopLinks;
use osp::protocol::product::{AssetType, PriceModel, ProductType};
use osp::protocol::validation::{validate_product, validate_shop_manifest};
use osp::protocol::well_known::WellKnownOsp;
use url::Url;

fn base() -> Url {
    Url::parse("https://shop.example").unwrap()
}

fn empty_row() -> ProductRow {
    ProductRow {
        id: None,
        name: None,
        description: None,
        long_description: None,
        url: None,
        product_type: None,
        price_model: None,
        price_amount: None,
        price_currency: None,
        license_spdx: None,
        license_name: None,
        license_url: None,
        cover_url: None,
        assets: None,
        categories: None,
        tags: None,
        version: None,
        created_at: None,
        updated_at: None,
    }
}

fn shop_row() -> ShopRow {
    ShopRow {
        id: 1,
        name: "My Shop".into(),
        description: Some("Fonts and tools".into()),
        owner: Some("Ada".into()),
        email: None,
        lang: Some("fr".into()),
        currency: Some("EUR".into()),
        logo_url: Some("not a url".into()),
        categories: Some("[\"fonts\",\"tools\"]".into()),
        tags: Some("{broken".into()),
        links: Some("{\"github\":\"ada\"}".into()),
    }
}

#[test]
fn well_known_points_at_documents() {
    let w = WellKnownOsp::new(&Url::parse("https://shop.example/some/path").unwrap());
    assert_eq!(w.osp_version, "1");
    assert_eq!(w.shop_url.as_str(), "https://shop.example/shop.json");
    assert_eq!(w.products_url.as_str(), "https://shop.example/products.json");
    assert!(WellKnownOsp::try_new(&Url::parse("mailto:ada@example.com").unwrap()).is_none());
    assert!(WellKnownOsp::try_new(&base()).is_some());
}

#[test]
fn manifest_from_row() {
    let links = Some(ShopLinks { twitter: None, github: Some("ada".into()), mastodon: None, website: None });
    let m = shop_manifest_document(shop_row(), base(), links);
    assert_eq!(m.osp_version, "1");
    assert_eq!(m.url, base());
    assert_eq!(m.name, "My Shop");
    assert_eq!(m.logo_url, None);
    assert_eq!(m.categories, vec!["fonts".to_string(), "tools".to_string()]);
    assert!(m.tags.is_empty());
    assert_eq!(m.links.unwrap().github.as_deref(), Some("ada"));
    let mut row = shop_row();
    row.logo_url = Some("https://cdn.example/logo.png".into());
    let m = shop_manifest_document(row, base(), None);
    assert_eq!(m.logo_url.as_ref().unwrap().as_str(), "https://cdn.example/logo.png");
    assert!(validate_shop_manifest(&m).is_ok());
}

#[test]
fn product_from_empty_row() {
    let p = row_to_product(empty_row(), &base());
    assert_eq!(p.id, "");
    assert_eq!(p.name, "");
    assert_eq!(p.url.as_str(), "https://shop.example/products/unknown");
    assert_eq!(p.product_type, ProductType::Download);
    assert_eq!(p.price.model, PriceModel::Free);
    assert!(p.license.is_none());
    assert!(p.assets.is_empty());
    assert!(validate_product(&p).is_err());
}

#[test]
fn product_from_full_row() {
    let mut r = empty_row();
    r.id = Some("abc".into());
    r.name = Some("Font pack".into());
    r.url = Some("relative/path".into());
    r.product_type = Some("tool".into());
    r.price_model = Some("pay_what_you_want".into());
    r.price_amount = Some(500);
    r.price_currency = Some("EUR".into());
    r.license_name = Some("Custom".into());
    r.license_url = Some("https://license.example".into());
    r.cover_url = Some("bad cover".into());
    r.assets = Some(
        "[{\"url\":\"https://img.example/1.png\",\"asset_type\":\"screenshot\",\"alt\":\"one\"},\
          {\"url\":\"not a url\",\"asset_type\":\"video\"},\
          {\"asset_type\":\"demo\"},\
          {\"url\":\"https://img.example/2.mp4\",\"asset_type\":\"movie\"},\
          7]"
            .into(),
    );
    r.categories = Some("[\"fonts\"]".into());
    r.tags = Some("[1,2]".into());
    let p = row_to_product(r, &base());
    assert_eq!(p.url.as_str(), "https://shop.example/products/abc");
    assert_eq!(p.product_type, ProductType::Tool);
    assert_eq!(p.price.model, PriceModel::PayWhatYouWant);
    assert_eq!(p.price.amount, Some(500));
    let license = p.license.unwrap();
    assert_eq!(license.spdx, None);
    assert_eq!(license.name.as_deref(), Some("Custom"));
    assert_eq!(license.url.unwrap().as_str(), "https://license.example/");
    assert!(p.cover_url.is_none());
    assert_eq!(p.assets.len(), 2);
    assert_eq!(p.assets[0].asset_type, AssetType::Screenshot);
    assert_eq!(p.assets[0].alt.as_deref(), Some("one"));
    assert_eq!(p.assets[1].asset_type, AssetType::Other);
    assert_eq!(p.assets[1].url.as_str(), "https://img.example/2.mp4");
    assert_eq!(p.categories, vec!["fonts".to_string()]);
    assert!(p.tags.is_empty());
}

#[test]
fn product_names_and_amounts() {
    let mut r = empty_row();
    r.url = Some("https://p.example/x".into());
    r.product_type = Some("other".into());
    let mut unknown = r.clone();
    unknown.product_type = Some("ebook".into());
    assert_eq!(row_to_product(unknown, &base()).product_type, ProductType::Download);
    r.price_model = Some("subscription".into());
    r.price_amount = Some(-1);
    let p = row_to_product(r, &base());
    assert_eq!(p.url.as_str(), "https://p.example/x");
    assert_eq!(p.product_type, ProductType::Other);
    assert_eq!(p.price.model, PriceModel::Subscription);
    assert_eq!(p.price.amount, Some(u64::MAX));
}

#[test]
fn product_without_resolvable_url() {
    let base = Url::parse("data:text/plain,x").unwrap();
    assert!(try_row_to_product(&empty_row(), &base).is_none());
    let mut r = empty_row();
    r.url = Some("https://p.example/x".into());
    assert!(try_row_to_product(&r, &base).is_some());
}

#[test]
fn listing_pages() {
    let w = PaginationParams { page: None, per_page: None }.window().unwrap();
    assert_eq!((w.page, w.per_page, w.offset), (1, 50, 0));
    let params = PaginationParams { page: Some(2), per_page: Some(10) };
    let rows = vec![empty_row(), empty_row()];
    let l = products_listing_document(base(), &params, 25, &rows).unwrap();
    assert_eq!(l.osp_version, "1");
    assert_eq!(l.total, 25);
    assert_eq!(l.page, Some(2));
    assert_eq!(l.products.len(), 2);
    assert_eq!(l.next_url.unwrap().as_str(), "https://shop.example/products.json?page=3&per_page=10");
    let l = products_listing_document(base(), &params, 20, &rows).unwrap();
    assert!(l.next_url.is_none());
    let last = PaginationParams { page: Some(i64::MAX), per_page: Some(1) };
    assert!(products_listing_document(base(), &last, i64::MAX, &vec![]).is_some());
    let past = PaginationParams { page: Some(i64::MAX), per_page: Some(2) };
    assert!(products_listing_document(base(), &past, 0, &vec![]).is_none());
    let bad = Url::parse("data:text/plain,x").unwrap();
    let first = PaginationParams { page: None, per_page: None };
    assert!(products_listing_document(bad, &first, 1, &rows).is_none());
    let l = products_listing_document(base(), &PaginationParams { page: Some(70000), per_page: Some(1) }, 0, &vec![]).unwrap();
    assert_eq!(l.page, Some(70000));
}
