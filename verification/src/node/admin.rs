//! The admin API's rules: who may use it, what it accepts, and what it
//! stores.
use vstd::prelude::*;

use crate::json::{encode_string_list, json_string_list, json_text_of_strings, json_value_of, parse_json_value};
use crate::node::models::{ProductRow, ShopRow};
use crate::node::config::{password_accepted, verify_password};
use crate::node::error::{first_problem, invalid, rejection, AppError, AppErrorView, AppResult};
use crate::node::paging::{page_window, requested_window, selects, window_fits, PageWindow};
use crate::node::validation::{
    length_problem, max_len, price_problem, require_str, required_problem, url_problem, validate_price,
    validate_url,
};
use crate::text::{copy_text, opt_text, text_or, texts};

verus! {

// ── Auth ──────────────────────────────────────────────────────────────────────

/// The password a request supplied, or the empty text where it supplied none.
pub open spec fn supplied_password(supplied: Option<&str>) -> Seq<char> {
    match supplied {
        Some(p) => p@,
        None => Seq::empty(),
    }
}

/// Lets a request through only if the password it supplied (the
/// `x-admin-password` header) matches the admin password hash.
pub fn require_auth(supplied: Option<&str>, hash: &str) -> (r: AppResult<()>)
    ensures
        rejection(r) == (if password_accepted(supplied_password(supplied), hash@) {
            None
        } else {
            Some(AppErrorView::Unauthorized)
        }),
{
    proof {
        reveal_strlit("");
    }
    let password = match supplied {
        Some(p) => p,
        None => "",
    };
    assert(password@ =~= supplied_password(supplied));
    if !verify_password(password, hash) {
        return Err(AppError::Unauthorized);
    }
    Ok(())
}

// ── Stored JSON ───────────────────────────────────────────────────────────────

/// The JSON value a column holds, if it holds text that parses as JSON.
pub open spec fn stored_json(o: Option<String>) -> Option<serde_json::Value> {
    match o {
        Some(s) => json_value_of(s@),
        None => None,
    }
}

fn column_json(o: &Option<String>) -> (r: Option<serde_json::Value>)
    ensures
        r == stored_json(*o),
{
    match o {
        Some(s) => parse_json_value(s.as_str()),
        None => None,
    }
}

// ── Shop ──────────────────────────────────────────────────────────────────────

/// The shop as the admin API shows it (GET /admin/shop): its columns, with
/// the JSON columns parsed (absent where they do not parse).
#[derive(Debug)]
pub struct AdminShopView {
    pub name: String,
    pub description: Option<String>,
    pub owner: Option<String>,
    pub email: Option<String>,
    pub lang: Option<String>,
    pub currency: Option<String>,
    pub logo_url: Option<String>,
    pub categories: Option<serde_json::Value>,
    pub tags: Option<serde_json::Value>,
    pub links: Option<serde_json::Value>,
}

/// The admin view of a shop row.
pub fn admin_shop_view(row: &ShopRow) -> (v: AdminShopView)
    ensures
        v.name == row.name,
        v.description == row.description,
        v.owner == row.owner,
        v.email == row.email,
        v.lang == row.lang,
        v.currency == row.currency,
        v.logo_url == row.logo_url,
        v.categories == stored_json(row.categories),
        v.tags == stored_json(row.tags),
        v.links == stored_json(row.links),
{
    AdminShopView {
        name: row.name.clone(),
        description: copy_text(&row.description),
        owner: copy_text(&row.owner),
        email: copy_text(&row.email),
        lang: copy_text(&row.lang),
        currency: copy_text(&row.currency),
        logo_url: copy_text(&row.logo_url),
        categories: column_json(&row.categories),
        tags: column_json(&row.tags),
        links: column_json(&row.links),
    }
}

/// The changes an administrator asks for on the shop.
#[derive(Debug, Clone)]
pub struct UpdateShop {
    pub name: Option<String>,
    pub description: Option<String>,
    pub owner: Option<String>,
    pub email: Option<String>,
    pub lang: Option<String>,
    pub currency: Option<String>,
    pub logo_url: Option<String>,
    pub categories: Option<Vec<String>>,
    pub tags: Option<Vec<String>>,
    /// The links, as the JSON text of the value submitted.
    pub links: Option<String>,
}

/// The changes to store on the shop row; `None` leaves a column as it is.
#[derive(Debug, Clone)]
pub struct ShopChanges {
    pub name: Option<String>,
    pub description: Option<String>,
    pub owner: Option<String>,
    pub email: Option<String>,
    pub lang: Option<String>,
    pub currency: Option<String>,
    pub logo_url: Option<String>,
    /// JSON text of the category list.
    pub categories: Option<String>,
    /// JSON text of the tag list.
    pub tags: Option<String>,
    /// JSON text of the links.
    pub links: Option<String>,
}

/// The JSON text a list is stored as, if it is given.
pub open spec fn stored_list(o: Option<Vec<String>>) -> Option<Seq<char>> {
    match o {
        Some(v) => Some(json_text_of_strings(texts(v@))),
        None => None,
    }
}

/// Whether a stored JSON text reads back as the list it stores, where one is
/// given.
pub open spec fn reads_back(stored: Option<String>, given: Option<Vec<String>>) -> bool {
    given matches Some(v) ==> (stored matches Some(t) && json_string_list(t@) == Some(texts(v@)))
}

/// What a new name must satisfy: not blank, and at most `max` bytes.
pub open spec fn name_problem(name: Option<String>, max: usize) -> Option<Seq<char>> {
    match name {
        Some(n) => first_problem(required_problem("name"@, n@), length_problem("name"@, n@, max)),
        None => None,
    }
}

/// A description must have at most 1000 bytes.
pub open spec fn description_problem(description: Option<String>) -> Option<Seq<char>> {
    match description {
        Some(d) => length_problem("description"@, d@, 1000),
        None => None,
    }
}

/// An optional URL field that is given and not empty must be an http(s) URL.
pub open spec fn optional_url_problem(field: Seq<char>, value: Option<String>) -> Option<Seq<char>> {
    match value {
        Some(u) => if u@.len() == 0 {
            None
        } else {
            url_problem(field, u@)
        },
        None => None,
    }
}

/// What `update_shop` refuses, in order: the name, the description, the logo URL.
pub open spec fn shop_update_problem(b: UpdateShop) -> Option<Seq<char>> {
    first_problem(
        name_problem(b.name, 120),
        first_problem(description_problem(b.description), optional_url_problem("logo_url"@, b.logo_url)),
    )
}

/// Whether `c` stores what `b` asks for.
pub open spec fn shop_changes_from(c: ShopChanges, b: UpdateShop) -> bool {
    &&& c.name == b.name
    &&& c.description == b.description
    &&& c.owner == b.owner
    &&& c.email == b.email
    &&& c.lang == b.lang
    &&& c.currency == b.currency
    &&& c.logo_url == b.logo_url
    &&& opt_text(c.categories) == stored_list(b.categories)
    &&& opt_text(c.tags) == stored_list(b.tags)
    &&& reads_back(c.categories, b.categories)
    &&& reads_back(c.tags, b.tags)
    &&& c.links == b.links
}

fn store_list(o: Option<Vec<String>>) -> (r: Option<String>)
    ensures
        opt_text(r) == stored_list(o),
        reads_back(r, o),
{
    match o {
        Some(v) => Some(encode_string_list(&v)),
        None => None,
    }
}

fn check_name(name: &Option<String>, max: usize) -> (r: AppResult<()>)
    ensures
        rejection(r) == invalid(name_problem(*name, max)),
{
    if let Some(n) = name {
        require_str("name", n.as_str())?;
        max_len("name", n.as_str(), max)?;
    }
    Ok(())
}

fn check_description(description: &Option<String>) -> (r: AppResult<()>)
    ensures
        rejection(r) == invalid(description_problem(*description)),
{
    if let Some(d) = description {
        max_len("description", d.as_str(), 1000)?;
    }
    Ok(())
}

fn check_optional_url(field: &str, value: &Option<String>) -> (r: AppResult<()>)
    ensures
        rejection(r) == invalid(optional_url_problem(field@, *value)),
{
    if let Some(u) = value {
        if !u.as_str().is_empty() {
            validate_url(field, u.as_str())?;
        }
    }
    Ok(())
}

/// Checks the changes asked for on the shop, and makes the row changes to
/// store (PATCH /admin/shop).
pub fn prepare_shop_update(body: UpdateShop) -> (r: AppResult<ShopChanges>)
    ensures
        rejection(r) == invalid(shop_update_problem(body)),
        r matches Ok(c) ==> shop_changes_from(c, body),
{
    check_name(&body.name, 120)?;
    check_description(&body.description)?;
    check_optional_url("logo_url", &body.logo_url)?;
    let categories = store_list(body.categories);
    let tags = store_list(body.tags);
    Ok(ShopChanges {
        name: body.name,
        description: body.description,
        owner: body.owner,
        email: body.email,
        lang: body.lang,
        currency: body.currency,
        logo_url: body.logo_url,
        categories,
        tags,
        links: body.links,
    })
}

// ── Products ──────────────────────────────────────────────────────────────────

/// The page of products an administrator asks for.
#[derive(Debug, Clone)]
pub struct PaginationParams {
    pub page: Option<i64>,
    pub per_page: Option<i64>,
}

impl PaginationParams {
    /// The page asked for, 20 products a page unless told otherwise; `None`
    /// where its offset overflows an `i64`.
    pub fn window(&self) -> (w: Option<PageWindow>)
        ensures
            w is Some <==> window_fits(self.page, self.per_page, 20),
            w matches Some(w) ==> selects(w, self.page, self.per_page, 20) && w == requested_window(
                self.page,
                self.per_page,
                20,
            ),
    {
        page_window(self.page, self.per_page, 20)
    }
}

/// A product as the admin API lists it: some of its columns, with the JSON
/// columns parsed (absent where they do not parse).
#[derive(Debug)]
pub struct AdminProductSummary {
    pub id: Option<String>,
    pub name: Option<String>,
    pub description: Option<String>,
    pub url: Option<String>,
    pub product_type: Option<String>,
    pub price_model: Option<String>,
    pub price_amount: Option<i64>,
    pub price_currency: Option<String>,
    pub cover_url: Option<String>,
    pub categories: Option<serde_json::Value>,
    pub tags: Option<serde_json::Value>,
    pub version: Option<String>,
    pub created_at: Option<String>,
    pub updated_at: Option<String>,
}

/// Whether `s` is the admin summary of the row `r`.
pub open spec fn summarizes(s: AdminProductSummary, r: ProductRow) -> bool {
    &&& s.id == r.id
    &&& s.name == r.name
    &&& s.description == r.description
    &&& s.url == r.url
    &&& s.product_type == r.product_type
    &&& s.price_model == r.price_model
    &&& s.price_amount == r.price_amount
    &&& s.price_currency == r.price_currency
    &&& s.cover_url == r.cover_url
    &&& s.categories == stored_json(r.categories)
    &&& s.tags == stored_json(r.tags)
    &&& s.version == r.version
    &&& s.created_at == r.created_at
    &&& s.updated_at == r.updated_at
}

/// The admin summary of a product row.
pub fn admin_product_summary(r: &ProductRow) -> (s: AdminProductSummary)
    ensures
        summarizes(s, *r),
{
    AdminProductSummary {
        id: copy_text(&r.id),
        name: copy_text(&r.name),
        description: copy_text(&r.description),
        url: copy_text(&r.url),
        product_type: copy_text(&r.product_type),
        price_model: copy_text(&r.price_model),
        price_amount: r.price_amount,
        price_currency: copy_text(&r.price_currency),
        cover_url: copy_text(&r.cover_url),
        categories: column_json(&r.categories),
        tags: column_json(&r.tags),
        version: copy_text(&r.version),
        created_at: copy_text(&r.created_at),
        updated_at: copy_text(&r.updated_at),
    }
}

/// A page of products as the admin API lists it (GET /admin/products).
#[derive(Debug)]
pub struct AdminProductPage {
    pub products: Vec<AdminProductSummary>,
    pub total: i64,
    pub page: i64,
    pub per_page: i64,
}

/// The admin page `w` of a table of `total` products, of which `rows` are on
/// the page.
pub fn admin_product_page(w: PageWindow, total: i64, rows: &Vec<ProductRow>) -> (p: AdminProductPage)
    ensures
        p.page == w.page,
        p.per_page == w.per_page,
        p.total == total,
        p.products@.len() == rows@.len(),
        forall|i: int| 0 <= i < rows@.len() ==> summarizes(#[trigger] p.products@[i], rows@[i]),
{
    let mut products: Vec<AdminProductSummary> = Vec::new();
    let n = rows.len();
    let mut i: usize = 0;
    while i < n
        invariant
            n == rows@.len(),
            i <= n,
            products@.len() == i,
            forall|j: int| 0 <= j < i ==> summarizes(#[trigger] products@[j], rows@[j]),
        decreases n - i,
    {
        products.push(admin_product_summary(&rows[i]));
        i += 1;
    }
    AdminProductPage { products, total, page: w.page, per_page: w.per_page }
}

/// A product an administrator submits.
#[derive(Debug, Clone)]
pub struct CreateProduct {
    pub name: String,
    pub description: Option<String>,
    pub long_description: Option<String>,
    pub url: String,
    pub product_type: Option<String>,
    pub price_model: String,
    pub price_amount: Option<i64>,
    pub price_currency: Option<String>,
    pub license_spdx: Option<String>,
    pub license_name: Option<String>,
    pub license_url: Option<String>,
    pub cover_url: Option<String>,
    pub categories: Option<Vec<String>>,
    pub tags: Option<Vec<String>>,
    pub version: Option<String>,
}

/// Changes an administrator asks for on a product.
#[derive(Debug, Clone)]
pub struct UpdateProduct {
    pub name: Option<String>,
    pub description: Option<String>,
    pub long_description: Option<String>,
    pub url: Option<String>,
    pub product_type: Option<String>,
    pub price_model: Option<String>,
    pub price_amount: Option<i64>,
    pub price_currency: Option<String>,
    pub license_spdx: Option<String>,
    pub license_name: Option<String>,
    pub license_url: Option<String>,
    pub cover_url: Option<String>,
    pub categories: Option<Vec<String>>,
    pub tags: Option<Vec<String>>,
    pub version: Option<String>,
}

/// The answer to a product's creation: its new id.
#[derive(Debug, Clone)]
pub struct CreatedProduct {
    pub id: String,
}

/// The row to insert for a new product.
#[derive(Debug, Clone)]
pub struct NewProduct {
    pub id: String,
    pub name: String,
    pub description: Option<String>,
    pub long_description: Option<String>,
    pub url: String,
    pub product_type: String,
    pub price_model: String,
    pub price_amount: Option<i64>,
    pub price_currency: Option<String>,
    pub license_spdx: Option<String>,
    pub license_name: Option<String>,
    pub license_url: Option<String>,
    pub cover_url: Option<String>,
    /// JSON text of the category list.
    pub categories: String,
    /// JSON text of the tag list.
    pub tags: String,
    pub version: Option<String>,
}

/// The changes to store on a product row; `None` leaves a column as it is.
#[derive(Debug, Clone)]
pub struct ProductChanges {
    pub name: Option<String>,
    pub description: Option<String>,
    pub long_description: Option<String>,
    pub url: Option<String>,
    pub product_type: Option<String>,
    pub price_model: Option<String>,
    pub price_amount: Option<i64>,
    pub price_currency: Option<String>,
    pub license_spdx: Option<String>,
    pub license_name: Option<String>,
    pub license_url: Option<String>,
    pub cover_url: Option<String>,
    /// JSON text of the category list.
    pub categories: Option<String>,
    /// JSON text of the tag list.
    pub tags: Option<String>,
    pub version: Option<String>,
}

/// The characters of a list that may be absent, empty where it is.
pub open spec fn list_or_empty(o: Option<Vec<String>>) -> Seq<Seq<char>> {
    match o {
        Some(v) => texts(v@),
        None => Seq::empty(),
    }
}

/// What `create_product` refuses, in order: a blank or long name, a blank or
/// non-http(s) URL, a long description, a non-http(s) cover URL, and prices
/// that disagree.
pub open spec fn new_product_problem(b: CreateProduct) -> Option<Seq<char>> {
    first_problem(
        required_problem("name"@, b.name@),
        first_problem(
            length_problem("name"@, b.name@, 200),
            first_problem(
                required_problem("url"@, b.url@),
                first_problem(
                    url_problem("url"@, b.url@),
                    first_problem(
                        description_problem(b.description),
                        first_problem(
                            optional_url_problem("cover_url"@, b.cover_url),
                            price_problem(b.price_model@, b.price_amount, b.price_currency is Some),
                        ),
                    ),
                ),
            ),
        ),
    )
}

/// Whether `p` is the row that stores `b` (under any id).
pub open spec fn new_product_from(p: NewProduct, b: CreateProduct) -> bool {
    &&& p.name == b.name
    &&& p.description == b.description
    &&& p.long_description == b.long_description
    &&& p.url == b.url
    &&& p.product_type@ == text_or(b.product_type, "download"@)
    &&& p.price_model == b.price_model
    &&& p.price_amount == b.price_amount
    &&& p.price_currency == b.price_currency
    &&& p.license_spdx == b.license_spdx
    &&& p.license_name == b.license_name
    &&& p.license_url == b.license_url
    &&& p.cover_url == b.cover_url
    &&& p.categories@ == json_text_of_strings(list_or_empty(b.categories))
    &&& p.tags@ == json_text_of_strings(list_or_empty(b.tags))
    &&& json_string_list(p.categories@) == Some(list_or_empty(b.categories))
    &&& json_string_list(p.tags@) == Some(list_or_empty(b.tags))
    &&& p.version == b.version
}

/// A lowercase hexadecimal digit.
pub open spec fn is_lower_hex(c: char) -> bool {
    ('0' <= c && c <= '9') || ('a' <= c && c <= 'f')
}

/// The text of a version-4 UUID, hyphenated and lowercase: hyphens at 8, 13,
/// 18 and 23, the version `4` at 14, the variant (`8`, `9`, `a` or `b`) at
/// 19, and hexadecimal digits elsewhere.
pub open spec fn is_uuid_v4_text(s: Seq<char>) -> bool {
    &&& s.len() == 36
    &&& forall|i: int|
        0 <= i < 36 ==> if i == 8 || i == 13 || i == 18 || i == 23 {
            #[trigger] s[i] == '-'
        } else {
            is_lower_hex(s[i])
        }
    &&& s[14] == '4'
    &&& (s[19] == '8' || s[19] == '9' || s[19] == 'a' || s[19] == 'b')
}

/// Calls `uuid::Uuid::new_v4` and writes the id as text. The id is random;
/// claims only what holds of every outcome: `new_v4` sets the version to 4
/// and the RFC 4122 variant, and `Display` writes the UUID hyphenated in
/// lowercase.
#[verifier::external_body]
fn new_product_id() -> (id: String)
    ensures
        is_uuid_v4_text(id@),
{
    uuid::Uuid::new_v4().to_string()
}

fn stored_list_or_empty(o: Option<Vec<String>>) -> (r: String)
    ensures
        r@ == json_text_of_strings(list_or_empty(o)),
        json_string_list(r@) == Some(list_or_empty(o)),
{
    let v = match o {
        Some(v) => v,
        None => Vec::new(),
    };
    proof {
        assert(texts(v@) =~= list_or_empty(o));
    }
    encode_string_list(&v)
}

/// Checks a submitted product, and makes the row to insert under a fresh
/// random id (POST /admin/products).
pub fn prepare_new_product(body: CreateProduct) -> (r: AppResult<NewProduct>)
    ensures
        rejection(r) == invalid(new_product_problem(body)),
        r matches Ok(p) ==> new_product_from(p, body) && is_uuid_v4_text(p.id@),
{
    require_str("name", body.name.as_str())?;
    max_len("name", body.name.as_str(), 200)?;
    require_str("url", body.url.as_str())?;
    validate_url("url", body.url.as_str())?;
    check_description(&body.description)?;
    check_optional_url("cover_url", &body.cover_url)?;
    let currency = match &body.price_currency {
        Some(c) => Some(c.as_str()),
        None => None,
    };
    validate_price(body.price_model.as_str(), body.price_amount, currency)?;

    let id = new_product_id();
    let product_type = match body.product_type {
        Some(t) => t,
        None => "download".to_owned(),
    };
    let categories = stored_list_or_empty(body.categories);
    let tags = stored_list_or_empty(body.tags);
    Ok(NewProduct {
        id,
        name: body.name,
        description: body.description,
        long_description: body.long_description,
        url: body.url,
        product_type,
        price_model: body.price_model,
        price_amount: body.price_amount,
        price_currency: body.price_currency,
        license_spdx: body.license_spdx,
        license_name: body.license_name,
        license_url: body.license_url,
        cover_url: body.cover_url,
        categories,
        tags,
        version: body.version,
    })
}

/// Prices are checked on an update when a model or an amount is given; the
/// model is taken as "free" where only the amount is.
pub open spec fn price_update_problem(b: UpdateProduct) -> Option<Seq<char>> {
    if b.price_model is Some || b.price_amount is Some {
        price_problem(text_or(b.price_model, "free"@), b.price_amount, b.price_currency is Some)
    } else {
        None
    }
}

/// What `update_product` refuses, in order: the name, the URL, the
/// description, the cover URL and the prices.
pub open spec fn product_update_problem(b: UpdateProduct) -> Option<Seq<char>> {
    first_problem(
        name_problem(b.name, 200),
        first_problem(
            match b.url {
                Some(u) => url_problem("url"@, u@),
                None => None,
            },
            first_problem(
                description_problem(b.description),
                first_problem(optional_url_problem("cover_url"@, b.cover_url), price_update_problem(b)),
            ),
        ),
    )
}

/// Whether `c` stores what `b` asks for.
pub open spec fn product_changes_from(c: ProductChanges, b: UpdateProduct) -> bool {
    &&& c.name == b.name
    &&& c.description == b.description
    &&& c.long_description == b.long_description
    &&& c.url == b.url
    &&& c.product_type == b.product_type
    &&& c.price_model == b.price_model
    &&& c.price_amount == b.price_amount
    &&& c.price_currency == b.price_currency
    &&& c.license_spdx == b.license_spdx
    &&& c.license_name == b.license_name
    &&& c.license_url == b.license_url
    &&& c.cover_url == b.cover_url
    &&& opt_text(c.categories) == stored_list(b.categories)
    &&& opt_text(c.tags) == stored_list(b.tags)
    &&& reads_back(c.categories, b.categories)
    &&& reads_back(c.tags, b.tags)
    &&& c.version == b.version
}

/// Checks the changes asked for on a product of which `matching_rows` rows
/// exist, and makes the row changes to store (PATCH /admin/products/:id).
/// A product that does not exist is refused before anything is checked.
pub fn prepare_product_update(matching_rows: i64, body: UpdateProduct) -> (r: AppResult<ProductChanges>)
    ensures
        matching_rows == 0 ==> rejection(r) == Some(AppErrorView::NotFound),
        matching_rows != 0 ==> rejection(r) == invalid(product_update_problem(body)),
        r matches Ok(c) ==> product_changes_from(c, body),
{
    if matching_rows == 0 {
        return Err(AppError::NotFound);
    }
    check_name(&body.name, 200)?;
    if let Some(u) = &body.url {
        validate_url("url", u.as_str())?;
    }
    check_description(&body.description)?;
    check_optional_url("cover_url", &body.cover_url)?;
    if body.price_model.is_some() || body.price_amount.is_some() {
        proof {
            reveal_strlit("free");
        }
        let model = match &body.price_model {
            Some(m) => m.as_str(),
            None => "free",
        };
        let currency = match &body.price_currency {
            Some(c) => Some(c.as_str()),
            None => None,
        };
        validate_price(model, body.price_amount, currency)?;
    }
    let categories = store_list(body.categories);
    let tags = store_list(body.tags);
    Ok(ProductChanges {
        name: body.name,
        description: body.description,
        long_description: body.long_description,
        url: body.url,
        product_type: body.product_type,
        price_model: body.price_model,
        price_amount: body.price_amount,
        price_currency: body.price_currency,
        license_spdx: body.license_spdx,
        license_name: body.license_name,
        license_url: body.license_url,
        cover_url: body.cover_url,
        categories,
        tags,
        version: body.version,
    })
}

/// How a deletion that removed `rows_affected` rows is answered: a product
/// that was not there is not found.
pub open spec fn deletion_answer(rows_affected: nat) -> Option<AppErrorView> {
    if rows_affected == 0 {
        Some(AppErrorView::NotFound)
    } else {
        None
    }
}

/// The answer to a deletion that removed `rows_affected` rows (DELETE
/// /admin/products/:id).
pub fn deletion_outcome(rows_affected: u64) -> (r: AppResult<()>)
    ensures
        rejection(r) == deletion_answer(rows_affected as nat),
{
    if rows_affected == 0 {
        return Err(AppError::NotFound);
    }
    Ok(())
}

} // verus!
