//! The protocol documents the node serves, built from its database rows.
use vstd::prelude::*;

use crate::json::{
    json_asset_entries, json_string_list, parse_asset_entries, parse_string_list, AssetEntry, AssetEntryView,
};
use crate::node::models::{ProductRow, ShopRow};
use crate::node::paging::{page_window, requested_window, selects, window_fits, PageWindow};
use crate::protocol::manifest::{ShopLinks, ShopManifest};
use crate::protocol::product::{
    AssetType, License, PriceModel, Product, ProductAsset, ProductListing, ProductPrice, ProductType,
};
use crate::text::{copy_text, decimal, opt_text, push_decimal, same_text, text_or, text_or_empty, texts};
use crate::web::{join_url, joined_url, parse_url, parsed_url};

verus! {

/// The page of the listing a client asks for.
#[derive(Debug, Clone)]
pub struct PaginationParams {
    pub page: Option<i64>,
    pub per_page: Option<i64>,
}

impl PaginationParams {
    /// The page asked for, 50 products a page unless told otherwise; `None`
    /// where its offset overflows an `i64`.
    pub fn window(&self) -> (w: Option<PageWindow>)
        ensures
            w is Some <==> window_fits(self.page, self.per_page, 50),
            w matches Some(w) ==> selects(w, self.page, self.per_page, 50) && w == requested_window(
                self.page,
                self.per_page,
                50,
            ),
    {
        page_window(self.page, self.per_page, 50)
    }
}

// ── Column values ─────────────────────────────────────────────────────────────

/// The URL a column holds, if it holds one that parses.
pub open spec fn parsed_column_url(o: Option<String>) -> Option<url::Url> {
    match o {
        Some(u) => parsed_url(u@),
        None => None,
    }
}

/// The list a column holds as JSON, or the empty list where it holds none.
pub open spec fn stored_strings(o: Option<String>) -> Seq<Seq<char>> {
    match o {
        Some(s) => match json_string_list(s@) {
            Some(v) => v,
            None => Seq::empty(),
        },
        None => Seq::empty(),
    }
}

fn column_url(o: &Option<String>) -> (r: Option<url::Url>)
    ensures
        r == parsed_column_url(*o),
{
    match o {
        Some(u) => parse_url(u.as_str()),
        None => None,
    }
}

fn column_strings(o: &Option<String>) -> (r: Vec<String>)
    ensures
        texts(r@) == stored_strings(*o),
{
    let parsed = match o {
        Some(s) => parse_string_list(s.as_str()),
        None => None,
    };
    match parsed {
        Some(v) => v,
        None => {
            let v: Vec<String> = Vec::new();
            assert(texts(v@) =~= Seq::<Seq<char>>::empty());
            v
        },
    }
}

// ── Shop manifest ─────────────────────────────────────────────────────────────

/// Whether `m` is the manifest of the shop row `row`, served at `base`, with
/// the links read from the row's `links` column.
pub open spec fn manifest_of_row(m: ShopManifest, row: ShopRow, base: url::Url, links: Option<ShopLinks>) -> bool {
    &&& m.osp_version@ == "1"@
    &&& m.url == base
    &&& m.name == row.name
    &&& m.description == row.description
    &&& m.owner == row.owner
    &&& m.email == row.email
    &&& m.lang == row.lang
    &&& m.currency == row.currency
    &&& m.logo_url == parsed_column_url(row.logo_url)
    &&& texts(m.categories@) == stored_strings(row.categories)
    &&& texts(m.tags@) == stored_strings(row.tags)
    &&& m.links == links
}

/// The manifest of the shop (GET /shop.json): the row's fields, a logo URL
/// only where it parses, and categories and tags from their JSON columns,
/// empty where these do not parse.
pub fn shop_manifest_document(row: ShopRow, base: url::Url, links: Option<ShopLinks>) -> (m: ShopManifest)
    ensures
        manifest_of_row(m, row, base, links),
{
    let logo_url = column_url(&row.logo_url);
    let categories = column_strings(&row.categories);
    let tags = column_strings(&row.tags);
    ShopManifest {
        osp_version: "1".to_owned(),
        url: base,
        name: row.name,
        description: row.description,
        owner: row.owner,
        email: row.email,
        lang: row.lang,
        currency: row.currency,
        logo_url,
        categories,
        tags,
        links,
    }
}

// ── Products ──────────────────────────────────────────────────────────────────

/// The product type a stored name stands for, by the type's snake_case
/// name; any name that is none of them is a download.
pub open spec fn product_type_named(t: Seq<char>) -> ProductType {
    if t == "subscription"@ {
        ProductType::Subscription
    } else if t == "tool"@ {
        ProductType::Tool
    } else if t == "content"@ {
        ProductType::Content
    } else if t == "physical"@ {
        ProductType::Physical
    } else if t == "other"@ {
        ProductType::Other
    } else {
        ProductType::Download
    }
}

/// The pricing model a stored name stands for; any other name is free.
pub open spec fn price_model_named(t: Seq<char>) -> PriceModel {
    if t == "fixed"@ {
        PriceModel::Fixed
    } else if t == "pay_what_you_want"@ {
        PriceModel::PayWhatYouWant
    } else if t == "subscription"@ {
        PriceModel::Subscription
    } else {
        PriceModel::Free
    }
}

/// The asset type a stored name stands for; any other name is `Other`.
pub open spec fn asset_type_named(t: Seq<char>) -> AssetType {
    if t == "screenshot"@ {
        AssetType::Screenshot
    } else if t == "preview"@ {
        AssetType::Preview
    } else if t == "video"@ {
        AssetType::Video
    } else if t == "demo"@ {
        AssetType::Demo
    } else {
        AssetType::Other
    }
}

fn product_type_from(t: &str) -> (p: ProductType)
    ensures
        p == product_type_named(t@),
{
    if same_text(t, "subscription") {
        ProductType::Subscription
    } else if same_text(t, "tool") {
        ProductType::Tool
    } else if same_text(t, "content") {
        ProductType::Content
    } else if same_text(t, "physical") {
        ProductType::Physical
    } else if same_text(t, "other") {
        ProductType::Other
    } else {
        ProductType::Download
    }
}

fn price_model_from(t: &str) -> (m: PriceModel)
    ensures
        m == price_model_named(t@),
{
    if same_text(t, "fixed") {
        PriceModel::Fixed
    } else if same_text(t, "pay_what_you_want") {
        PriceModel::PayWhatYouWant
    } else if same_text(t, "subscription") {
        PriceModel::Subscription
    } else {
        PriceModel::Free
    }
}

fn asset_type_from(t: &str) -> (a: AssetType)
    ensures
        a == asset_type_named(t@),
{
    if same_text(t, "screenshot") {
        AssetType::Screenshot
    } else if same_text(t, "preview") {
        AssetType::Preview
    } else if same_text(t, "video") {
        AssetType::Video
    } else if same_text(t, "demo") {
        AssetType::Demo
    } else {
        AssetType::Other
    }
}

/// An asset taken as its type, its URL and the characters of its alt text.
pub type AssetView = (AssetType, url::Url, Option<Seq<char>>);

/// The view of an asset.
pub open spec fn asset_view(a: ProductAsset) -> AssetView {
    (a.asset_type, a.url, opt_text(a.alt))
}

/// The asset a stored entry stands for: none unless its `url` is a string
/// that parses; its type is named by `asset_type`, "other" where absent.
pub open spec fn asset_of_entry(e: AssetEntryView) -> Option<AssetView> {
    match e.0 {
        Some(u) => match parsed_url(u) {
            Some(url) => Some(
                (
                    asset_type_named(
                        match e.1 {
                            Some(t) => t,
                            None => "other"@,
                        },
                    ),
                    url,
                    e.2,
                ),
            ),
            None => None,
        },
        None => None,
    }
}

/// The assets that a list of stored entries stands for, in order, skipping
/// the entries that stand for none.
pub open spec fn assets_of_entries(es: Seq<AssetEntryView>) -> Seq<AssetView>
    decreases es.len(),
{
    if es.len() == 0 {
        Seq::empty()
    } else {
        let rest = assets_of_entries(es.drop_last());
        match asset_of_entry(es.last()) {
            Some(a) => rest.push(a),
            None => rest,
        }
    }
}

/// The assets an `assets` column stands for; none where it holds no JSON
/// array.
pub open spec fn stored_assets(o: Option<String>) -> Seq<AssetView> {
    match o {
        Some(s) => match json_asset_entries(s@) {
            Some(es) => assets_of_entries(es),
            None => Seq::empty(),
        },
        None => Seq::empty(),
    }
}

fn asset_from_entry(e: &AssetEntry) -> (r: Option<ProductAsset>)
    ensures
        match r {
            Some(a) => asset_of_entry(e@) == Some(asset_view(a)),
            None => asset_of_entry(e@) is None,
        },
{
    let url = match &e.url {
        Some(u) => parse_url(u.as_str()),
        None => None,
    };
    match url {
        Some(url) => {
            let asset_type = match &e.asset_type {
                Some(t) => asset_type_from(t.as_str()),
                None => asset_type_from("other"),
            };
            Some(ProductAsset { asset_type, url, alt: copy_text(&e.alt) })
        },
        None => None,
    }
}

fn column_assets(o: &Option<String>) -> (r: Vec<ProductAsset>)
    ensures
        r@.map_values(|a: ProductAsset| asset_view(a)) == stored_assets(*o),
{
    let entries = match o {
        Some(s) => parse_asset_entries(s.as_str()),
        None => None,
    };
    let mut out: Vec<ProductAsset> = Vec::new();
    match entries {
        Some(entries) => {
            let ghost es = entries@.map_values(|e: AssetEntry| e@);
            let n = entries.len();
            let mut i: usize = 0;
            while i < n
                invariant
                    n == entries@.len(),
                    i <= n,
                    es == entries@.map_values(|e: AssetEntry| e@),
                    out@.map_values(|a: ProductAsset| asset_view(a)) == assets_of_entries(es.take(i as int)),
                decreases n - i,
            {
                assert(es.take(i as int + 1).drop_last() =~= es.take(i as int));
                assert(es.take(i as int + 1).last() == entries@[i as int]@);
                match asset_from_entry(&entries[i]) {
                    Some(a) => {
                        out.push(a);
                    },
                    None => {},
                }
                assert(out@.map_values(|a: ProductAsset| asset_view(a)) =~= assets_of_entries(
                    es.take(i as int + 1),
                ));
                i += 1;
            }
            assert(es.take(n as int) =~= es);
        },
        None => {
            assert(out@.map_values(|a: ProductAsset| asset_view(a)) =~= Seq::<AssetView>::empty());
        },
    }
    out
}

/// The reference a product's page is given under the shop's URL when its
/// stored URL does not parse.
pub open spec fn fallback_reference(id: Option<String>) -> Seq<char> {
    "/products/"@ + text_or(id, "unknown"@)
}

/// The URL of a product's page: its stored URL where that parses, else its
/// page under the shop's URL.
pub open spec fn product_url_of(r: ProductRow, base: url::Url) -> Option<url::Url> {
    match parsed_url(text_or(r.url, ""@)) {
        Some(u) => Some(u),
        None => joined_url(base, fallback_reference(r.id)),
    }
}

/// The amount a stored amount stands for, converted as `as u64` does.
pub open spec fn amount_of(a: Option<i64>) -> Option<u64> {
    match a {
        Some(a) => Some(a as u64),
        None => None,
    }
}

/// Whether `l` is the license a row records: one exists where an SPDX id or
/// a name is stored.
pub open spec fn license_of_row(l: Option<License>, r: ProductRow) -> bool {
    if r.license_spdx is Some || r.license_name is Some {
        l matches Some(l) && l.spdx == r.license_spdx && l.name == r.license_name && l.url
            == parsed_column_url(r.license_url)
    } else {
        l is None
    }
}

/// Whether `p` is the product a row describes, apart from its URL.
pub open spec fn product_fields_of_row(p: Product, r: ProductRow) -> bool {
    &&& p.id@ == text_or_empty(r.id)
    &&& p.name@ == text_or_empty(r.name)
    &&& p.description == r.description
    &&& p.long_description == r.long_description
    &&& p.product_type == product_type_named(text_or(r.product_type, "download"@))
    &&& p.price.model == price_model_named(text_or(r.price_model, "free"@))
    &&& p.price.amount == amount_of(r.price_amount)
    &&& p.price.currency == r.price_currency
    &&& license_of_row(p.license, r)
    &&& p.cover_url == parsed_column_url(r.cover_url)
    &&& p.assets@.map_values(|a: ProductAsset| asset_view(a)) == stored_assets(r.assets)
    &&& texts(p.categories@) == stored_strings(r.categories)
    &&& texts(p.tags@) == stored_strings(r.tags)
    &&& p.created_at == r.created_at
    &&& p.updated_at == r.updated_at
    &&& p.version == r.version
}

/// Whether `p` is the product a row describes for a shop at `base`.
pub open spec fn product_of_row(p: Product, r: ProductRow, base: url::Url) -> bool {
    &&& product_url_of(r, base) == Some(p.url)
    &&& product_fields_of_row(p, r)
}

fn product_url(r: &ProductRow, base: &url::Url) -> (u: Option<url::Url>)
    ensures
        u == product_url_of(*r, *base),
{
    proof {
        reveal_strlit("");
    }
    let stored = match &r.url {
        Some(u) => u.as_str(),
        None => "",
    };
    match parse_url(stored) {
        Some(u) => Some(u),
        None => {
            let mut reference = String::new();
            reference.append("/products/");
            match &r.id {
                Some(id) => reference.append(id.as_str()),
                None => reference.append("unknown"),
            }
            assert(reference@ =~= fallback_reference(r.id));
            join_url(base, reference.as_str())
        },
    }
}

fn product_with_url(r: &ProductRow, url: url::Url) -> (p: Product)
    ensures
        p.url == url,
        product_fields_of_row(p, *r),
{
    let product_type = match &r.product_type {
        Some(t) => product_type_from(t.as_str()),
        None => product_type_from("download"),
    };
    let model = match &r.price_model {
        Some(t) => price_model_from(t.as_str()),
        None => price_model_from("free"),
    };
    let license = if r.license_spdx.is_some() || r.license_name.is_some() {
        Some(
            License {
                spdx: copy_text(&r.license_spdx),
                name: copy_text(&r.license_name),
                url: column_url(&r.license_url),
            },
        )
    } else {
        None
    };
    let amount = match r.price_amount {
        Some(a) => Some(a as u64),
        None => None,
    };
    let id = match &r.id {
        Some(s) => s.clone(),
        None => String::new(),
    };
    let name = match &r.name {
        Some(s) => s.clone(),
        None => String::new(),
    };
    Product {
        id,
        name,
        description: copy_text(&r.description),
        long_description: copy_text(&r.long_description),
        url,
        product_type,
        price: ProductPrice { model, amount, currency: copy_text(&r.price_currency) },
        license,
        cover_url: column_url(&r.cover_url),
        assets: column_assets(&r.assets),
        categories: column_strings(&r.categories),
        tags: column_strings(&r.tags),
        created_at: copy_text(&r.created_at),
        updated_at: copy_text(&r.updated_at),
        version: copy_text(&r.version),
    }
}

/// The product a row describes for the shop at `base`. Its URL is the stored
/// one where that parses, else `/products/<id>` under `base` (with "unknown"
/// for a missing id), which must resolve.
pub fn row_to_product(r: ProductRow, base: &url::Url) -> (p: Product)
    requires
        product_url_of(r, *base) is Some,
    ensures
        product_of_row(p, r, *base),
{
    let url = product_url(&r, base).unwrap();
    product_with_url(&r, url)
}

/// The product a row describes for the shop at `base`, or `None` where
/// neither its stored URL parses nor its page under `base` resolves.
pub fn try_row_to_product(r: &ProductRow, base: &url::Url) -> (p: Option<Product>)
    ensures
        p is Some <==> product_url_of(*r, *base) is Some,
        p matches Some(p) ==> product_of_row(p, *r, *base),
{
    match product_url(r, base) {
        Some(url) => Some(product_with_url(r, url)),
        None => None,
    }
}

// ── Listing ───────────────────────────────────────────────────────────────────

/// Whether products remain after the page.
pub open spec fn has_next_page(w: PageWindow, total: i64) -> bool {
    w.offset + w.per_page < total
}

/// The reference of the next page of the listing.
pub open spec fn next_page_reference(w: PageWindow) -> Seq<char> {
    "/products.json?page="@ + decimal((w.page + 1) as nat) + "&per_page="@ + decimal(w.per_page as nat)
}

/// The URL of the next page, where products remain and the reference
/// resolves against `base`.
pub open spec fn next_page_url(base: url::Url, w: PageWindow, total: i64) -> Option<url::Url> {
    if has_next_page(w, total) {
        joined_url(base, next_page_reference(w))
    } else {
        None
    }
}

/// Whether the listing can be built: the page's end and the next page's
/// number fit in an `i64`, and every row's product URL resolves.
pub open spec fn listing_buildable(base: url::Url, w: PageWindow, total: i64, rows: Seq<ProductRow>) -> bool {
    &&& w.offset + w.per_page <= i64::MAX
    &&& (has_next_page(w, total) ==> w.page < i64::MAX)
    &&& forall|i: int| 0 <= i < rows.len() ==> (#[trigger] product_url_of(rows[i], base)) is Some
}

/// Whether `l` is the listing of the page `w` of a shop at `base` holding
/// `total` products, of which `rows` are on the page.
pub open spec fn listing_of(l: ProductListing, base: url::Url, w: PageWindow, total: i64, rows: Seq<ProductRow>) -> bool {
    &&& l.osp_version@ == "1"@
    &&& l.shop_url == base
    &&& l.total == total as u64
    &&& l.page == Some(w.page as u32)
    &&& l.next_url == next_page_url(base, w, total)
    &&& l.products@.len() == rows.len()
    &&& forall|i: int| 0 <= i < rows.len() ==> product_of_row(#[trigger] l.products@[i], rows[i], base)
}

fn next_url(base: &url::Url, w: PageWindow, total: i64) -> (r: Option<url::Url>)
    requires
        w.offset + w.per_page <= i64::MAX,
        has_next_page(w, total) ==> w.page < i64::MAX,
        w.page >= 0,
        w.per_page >= 0,
    ensures
        r == next_page_url(*base, w, total),
{
    if w.offset + w.per_page < total {
        let mut reference = String::new();
        reference.append("/products.json?page=");
        push_decimal(&mut reference, (w.page + 1) as u64);
        reference.append("&per_page=");
        push_decimal(&mut reference, w.per_page as u64);
        assert(reference@ =~= next_page_reference(w));
        join_url(base, reference.as_str())
    } else {
        None
    }
}

/// The page of the listing that `pagination` asks for.
pub open spec fn listing_window(pagination: PaginationParams) -> PageWindow {
    requested_window(pagination.page, pagination.per_page, 50)
}

/// The listing of the page of products that `pagination` asks for (GET
/// /products.json), given the shop's `total` and the `rows` on that page; or
/// `None` where it cannot be built: the page's offset overflows (see
/// `PaginationParams::window`), or see `listing_buildable`.
pub fn products_listing_document(
    base: url::Url,
    pagination: &PaginationParams,
    total: i64,
    rows: &Vec<ProductRow>,
) -> (r: Option<ProductListing>)
    ensures
        r is Some <==> window_fits(pagination.page, pagination.per_page, 50) && listing_buildable(
            base,
            listing_window(*pagination),
            total,
            rows@,
        ),
        r matches Some(l) ==> listing_of(l, base, listing_window(*pagination), total, rows@),
{
    let w = match pagination.window() {
        Some(w) => w,
        None => return None,
    };
    if w.offset > i64::MAX - w.per_page {
        return None;
    }
    if w.offset + w.per_page < total && w.page == i64::MAX {
        return None;
    }
    let next = next_url(&base, w, total);
    let mut products: Vec<Product> = Vec::new();
    let n = rows.len();
    let mut i: usize = 0;
    while i < n
        invariant
            n == rows@.len(),
            i <= n,
            products@.len() == i,
            forall|j: int| 0 <= j < i ==> product_of_row(#[trigger] products@[j], rows@[j], base),
            forall|j: int| 0 <= j < i ==> (#[trigger] product_url_of(rows@[j], base)) is Some,
        decreases n - i,
    {
        match try_row_to_product(&rows[i], &base) {
            Some(p) => {
                products.push(p);
            },
            None => {
                return None;
            },
        }
        i += 1;
    }
    Some(
        ProductListing {
            osp_version: "1".to_owned(),
            shop_url: base,
            total: total as u64,
            page: Some(w.page as u32),
            next_url: next,
            products,
        },
    )
}

} // verus!
