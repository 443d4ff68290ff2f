//! What the admin API's rules keep true of the stored shop and products, and
//! what the served documents give back of what was stored.
use vstd::prelude::*;

use crate::node::admin::{
    is_uuid_v4_text, list_or_empty, new_product_from, new_product_problem, product_changes_from, product_update_problem,
    shop_changes_from, shop_update_problem, NewProduct, ProductChanges, ShopChanges, UpdateProduct,
    UpdateShop, CreateProduct,
};
use crate::node::admin::deletion_answer;
use crate::node::error::AppErrorView;
use crate::node::models::{ProductRow, ShopRow};
use crate::node::osp::has_next_page;
use crate::node::paging::{requested_page, requested_per_page, requested_window, window_fits};
use crate::node::osp::{manifest_of_row, price_model_named, product_fields_of_row, product_url_of};
use crate::web::parsed_url;
use crate::protocol::manifest::{ShopLinks, ShopManifest};
use crate::protocol::product::Product;
use crate::protocol::validation::{product_verdict, requires_amount, shop_manifest_verdict};
use crate::text::{
    byte_len, decimal, decimal_reads_back, digits_value, is_ascii_digit, is_blank, text_or, text_or_empty, texts,
};
use crate::json::AssetEntryView;
use crate::node::osp::{asset_of_entry, next_page_reference};
use crate::node::paging::PageWindow;
use crate::node::validation::{price_problem, url_problem};
use crate::protocol::product::{AssetType, PriceModel, ProductType};
use crate::web::scheme_of;

verus! {

/// A column after an update that sets it to `new` where that is given and
/// keeps it otherwise (SQL `COALESCE(new, old)`).
pub open spec fn keep_or<T>(new: Option<T>, old: Option<T>) -> Option<T> {
    if new is Some {
        new
    } else {
        old
    }
}

/// The row an insertion of `p` stores.
pub open spec fn inserted_row(p: NewProduct, created_at: Option<String>, updated_at: Option<String>) -> ProductRow {
    ProductRow {
        id: Some(p.id),
        name: Some(p.name),
        description: p.description,
        long_description: p.long_description,
        url: Some(p.url),
        product_type: Some(p.product_type),
        price_model: Some(p.price_model),
        price_amount: p.price_amount,
        price_currency: p.price_currency,
        license_spdx: p.license_spdx,
        license_name: p.license_name,
        license_url: p.license_url,
        cover_url: p.cover_url,
        assets: None,
        categories: Some(p.categories),
        tags: Some(p.tags),
        version: p.version,
        created_at,
        updated_at,
    }
}

/// The row an update with `c` leaves of `r`, stamped `updated_at`.
pub open spec fn updated_row(r: ProductRow, c: ProductChanges, updated_at: Option<String>) -> ProductRow {
    ProductRow {
        id: r.id,
        name: keep_or(c.name, r.name),
        description: keep_or(c.description, r.description),
        long_description: keep_or(c.long_description, r.long_description),
        url: keep_or(c.url, r.url),
        product_type: keep_or(c.product_type, r.product_type),
        price_model: keep_or(c.price_model, r.price_model),
        price_amount: keep_or(c.price_amount, r.price_amount),
        price_currency: keep_or(c.price_currency, r.price_currency),
        license_spdx: keep_or(c.license_spdx, r.license_spdx),
        license_name: keep_or(c.license_name, r.license_name),
        license_url: keep_or(c.license_url, r.license_url),
        cover_url: keep_or(c.cover_url, r.cover_url),
        assets: r.assets,
        categories: keep_or(c.categories, r.categories),
        tags: keep_or(c.tags, r.tags),
        version: keep_or(c.version, r.version),
        created_at: r.created_at,
        updated_at,
    }
}

/// A product row whose listed product follows the protocol's rules: an id
/// and a name, an amount where the model needs one, a currency where there
/// is an amount, and a description of at most 1000 bytes.
pub open spec fn row_conforms(r: ProductRow) -> bool {
    &&& text_or_empty(r.id).len() > 0
    &&& text_or_empty(r.name).len() > 0
    &&& (requires_amount(price_model_named(text_or(r.price_model, "free"@))) ==> r.price_amount is Some)
    &&& (r.price_amount is Some ==> r.price_currency is Some)
    &&& (r.description matches Some(d) ==> byte_len(d@) <= 1000)
}

/// A product listed from a row passes `validate_product` exactly when the
/// row conforms.
pub proof fn listed_product_validity(p: Product, r: ProductRow)
    requires
        product_fields_of_row(p, r),
    ensures
        product_verdict(p) is Ok <==> row_conforms(r),
{
}

/// A product the admin API accepts is stored as a conforming row: its
/// listing passes the protocol's validation.
pub proof fn created_row_conforms(
    b: CreateProduct,
    p: NewProduct,
    created_at: Option<String>,
    updated_at: Option<String>,
)
    requires
        new_product_problem(b) is None,
        new_product_from(p, b),
        is_uuid_v4_text(p.id@),
    ensures
        row_conforms(inserted_row(p, created_at, updated_at)),
{
    assert(b.name@.len() > 0) by {
        if b.name@.len() == 0 {
            assert(crate::text::is_blank(b.name@));
        }
    }
}

/// An update the admin API accepts keeps a conforming product row
/// conforming.
pub proof fn update_keeps_row_conforming(
    r: ProductRow,
    b: UpdateProduct,
    c: ProductChanges,
    updated_at: Option<String>,
)
    requires
        row_conforms(r),
        product_update_problem(b) is None,
        product_changes_from(c, b),
    ensures
        row_conforms(updated_row(r, c, updated_at)),
{
    if let Some(n) = b.name {
        if n@.len() == 0 {
            assert(crate::text::is_blank(n@));
        }
    }
}

/// The categories a created product is stored with are the ones its listing
/// shows: the list submitted, or none.
pub proof fn created_categories_are_listed(
    b: CreateProduct,
    p: NewProduct,
    q: Product,
    created_at: Option<String>,
    updated_at: Option<String>,
)
    requires
        new_product_from(p, b),
        product_fields_of_row(q, inserted_row(p, created_at, updated_at)),
    ensures
        texts(q.categories@) == list_or_empty(b.categories),
        texts(q.tags@) == list_or_empty(b.tags),
{
}

/// A product the admin API accepts is listed with the URL it was submitted
/// with, which parses.
pub proof fn created_url_is_listed(
    b: CreateProduct,
    p: NewProduct,
    base: url::Url,
    created_at: Option<String>,
    updated_at: Option<String>,
)
    requires
        new_product_problem(b) is None,
        new_product_from(p, b),
    ensures
        parsed_url(b.url@) is Some,
        product_url_of(inserted_row(p, created_at, updated_at), base) == parsed_url(b.url@),
{
}

/// The row an update with `c` leaves of the shop row `r`.
pub open spec fn updated_shop_row(r: ShopRow, c: ShopChanges) -> ShopRow {
    ShopRow {
        id: r.id,
        name: match c.name {
            Some(n) => n,
            None => r.name,
        },
        description: keep_or(c.description, r.description),
        owner: keep_or(c.owner, r.owner),
        email: keep_or(c.email, r.email),
        lang: keep_or(c.lang, r.lang),
        currency: keep_or(c.currency, r.currency),
        logo_url: keep_or(c.logo_url, r.logo_url),
        categories: keep_or(c.categories, r.categories),
        tags: keep_or(c.tags, r.tags),
        links: keep_or(c.links, r.links),
    }
}

/// A shop row whose manifest follows the protocol's rules: a name, and a
/// description of at most 1000 bytes.
pub open spec fn shop_row_conforms(r: ShopRow) -> bool {
    &&& r.name@.len() > 0
    &&& (r.description matches Some(d) ==> byte_len(d@) <= 1000)
}

/// The manifest served for a shop row passes `validate_shop_manifest`
/// exactly when the row conforms.
pub proof fn served_manifest_validity(m: ShopManifest, row: ShopRow, base: url::Url, links: Option<ShopLinks>)
    requires
        manifest_of_row(m, row, base, links),
    ensures
        shop_manifest_verdict(m) is Ok <==> shop_row_conforms(row),
{
}

/// An update of the shop that the admin API accepts keeps a conforming shop
/// row conforming.
pub proof fn shop_update_keeps_row_conforming(r: ShopRow, b: UpdateShop, c: ShopChanges)
    requires
        shop_row_conforms(r),
        shop_update_problem(b) is None,
        shop_changes_from(c, b),
    ensures
        shop_row_conforms(updated_shop_row(r, c)),
{
    if let Some(n) = b.name {
        if n@.len() == 0 {
            assert(crate::text::is_blank(n@));
        }
    }
}

/// The categories and tags an accepted shop update submits are the ones the
/// served manifest shows afterwards.
pub proof fn shop_update_lists_are_served(
    r: ShopRow,
    b: UpdateShop,
    c: ShopChanges,
    m: ShopManifest,
    base: url::Url,
    links: Option<ShopLinks>,
)
    requires
        shop_changes_from(c, b),
        manifest_of_row(m, updated_shop_row(r, c), base, links),
    ensures
        b.categories matches Some(v) ==> texts(m.categories@) == texts(v@),
        b.tags matches Some(v) ==> texts(m.tags@) == texts(v@),
{
}

/// Whether a product row has the id `id` (a row without id has none).
pub open spec fn has_id(r: ProductRow, id: Seq<char>) -> bool {
    r.id matches Some(s) && s@ == id
}

/// How many rows of a table have the id `id`: the rows a deletion by that id
/// affects.
pub open spec fn rows_with_id(t: Seq<ProductRow>, id: Seq<char>) -> nat
    decreases t.len(),
{
    if t.len() == 0 {
        0
    } else {
        rows_with_id(t.drop_last(), id) + if has_id(t.last(), id) {
            1nat
        } else {
            0nat
        }
    }
}

/// The table a deletion by `id` leaves: the rows without that id, in order.
pub open spec fn without_id(t: Seq<ProductRow>, id: Seq<char>) -> Seq<ProductRow>
    decreases t.len(),
{
    if t.len() == 0 {
        t
    } else {
        let rest = without_id(t.drop_last(), id);
        if has_id(t.last(), id) {
            rest
        } else {
            rest.push(t.last())
        }
    }
}

/// Deleting a product twice: the second deletion affects no row, leaves the
/// table as the first left it, and is answered "not found".
pub proof fn second_deletion_is_not_found(t: Seq<ProductRow>, id: Seq<char>)
    ensures
        rows_with_id(without_id(t, id), id) == 0,
        without_id(without_id(t, id), id) == without_id(t, id),
        deletion_answer(rows_with_id(without_id(t, id), id)) == Some(AppErrorView::NotFound),
    decreases t.len(),
{
    if t.len() > 0 {
        second_deletion_is_not_found(t.drop_last(), id);
        let rest = without_id(t.drop_last(), id);
        if !has_id(t.last(), id) {
            assert(rest.push(t.last()).drop_last() =~= rest);
        }
    }
}

/// The first page of the listing starts at the first row.
pub proof fn first_page_starts_at_first_row(per_page: Option<i64>, default_per_page: i64)
    ensures
        window_fits(None, per_page, default_per_page),
        requested_window(None, per_page, default_per_page).offset == 0,
        requested_window(None, per_page, default_per_page) == requested_window(
            Some(1),
            per_page,
            default_per_page,
        ),
{
    let n = requested_per_page(per_page, default_per_page) as int;
    assert(0 * n == 0) by (nonlinear_arith);
}

/// Following the next page: the page numbered one more, with the same size,
/// starts where the page ends; and a page has a next one exactly when rows
/// remain past it.
pub proof fn next_page_continues(page: Option<i64>, per_page: Option<i64>, default_per_page: i64, total: i64)
    requires
        window_fits(page, per_page, default_per_page),
        requested_page(page) < i64::MAX,
    ensures
        ({
            let w = requested_window(page, per_page, default_per_page);
            let next_page = Some((w.page + 1) as i64);
            let next_size = Some(w.per_page);
            &&& has_next_page(w, total) <==> w.page * w.per_page < total
            &&& window_fits(next_page, next_size, default_per_page) <==> w.page * w.per_page <= i64::MAX
            &&& window_fits(next_page, next_size, default_per_page) ==> {
                let n = requested_window(next_page, next_size, default_per_page);
                &&& n.page == w.page + 1
                &&& n.per_page == w.per_page
                &&& n.offset == w.offset + w.per_page
            }
        }),
{
    let p = requested_page(page) as int;
    let n = requested_per_page(per_page, default_per_page) as int;
    assert(1 <= n <= 100);
    assert(p >= 1);
    assert((p - 1) * n >= 0) by (nonlinear_arith)
        requires
            p >= 1,
            n >= 1,
    ;
    assert(p * n == (p - 1) * n + n) by (nonlinear_arith);
}

// ── Stored names ──────────────────────────────────────────────────────────────

/// The name a pricing model is stored under: its snake_case name.
pub open spec fn stored_price_model_name(m: PriceModel) -> Seq<char> {
    match m {
        PriceModel::Fixed => "fixed"@,
        PriceModel::PayWhatYouWant => "pay_what_you_want"@,
        PriceModel::Free => "free"@,
        PriceModel::Subscription => "subscription"@,
    }
}

/// The name a product type is stored under: its snake_case name.
pub open spec fn stored_product_type_name(t: ProductType) -> Seq<char> {
    match t {
        ProductType::Download => "download"@,
        ProductType::Subscription => "subscription"@,
        ProductType::Tool => "tool"@,
        ProductType::Content => "content"@,
        ProductType::Physical => "physical"@,
        ProductType::Other => "other"@,
    }
}

/// The name an asset type is stored under: its snake_case name.
pub open spec fn stored_asset_type_name(a: AssetType) -> Seq<char> {
    match a {
        AssetType::Screenshot => "screenshot"@,
        AssetType::Preview => "preview"@,
        AssetType::Video => "video"@,
        AssetType::Demo => "demo"@,
        AssetType::Other => "other"@,
    }
}

/// A row that stores a pricing model by its name is listed with that model.
pub proof fn stored_price_model_reads_back(m: PriceModel, r: ProductRow, p: Product)
    requires
        product_fields_of_row(p, r),
        r.price_model matches Some(s) && s@ == stored_price_model_name(m),
    ensures
        p.price.model == m,
{
    reveal_strlit("fixed");
    reveal_strlit("pay_what_you_want");
    reveal_strlit("free");
    reveal_strlit("subscription");
    assert("fixed"@.len() == 5);
    assert("pay_what_you_want"@.len() == 17);
    assert("free"@.len() == 4);
    assert("subscription"@.len() == 12);
}

/// A row that stores a product type by its name is listed with that type.
pub proof fn stored_product_type_reads_back(t: ProductType, r: ProductRow, p: Product)
    requires
        product_fields_of_row(p, r),
        r.product_type matches Some(s) && s@ == stored_product_type_name(t),
    ensures
        p.product_type == t,
{
    reveal_strlit("download");
    reveal_strlit("subscription");
    reveal_strlit("tool");
    reveal_strlit("content");
    reveal_strlit("physical");
    reveal_strlit("other");
    assert("download"@.len() == 8 && "download"@[0] == 'd');
    assert("subscription"@.len() == 12);
    assert("tool"@.len() == 4);
    assert("content"@.len() == 7);
    assert("physical"@.len() == 8 && "physical"@[0] == 'p');
    assert("other"@.len() == 5);
}

/// A stored asset whose URL parses and whose type is stored by its name is
/// listed with that type, URL and alt text.
pub proof fn stored_asset_type_reads_back(a: AssetType, e: AssetEntryView)
    requires
        e.0 matches Some(u) && parsed_url(u) is Some,
        e.1 == Some(stored_asset_type_name(a)),
    ensures
        asset_of_entry(e) == Some((a, parsed_url(e.0->0)->0, e.2)),
{
    reveal_strlit("screenshot");
    reveal_strlit("preview");
    reveal_strlit("video");
    reveal_strlit("demo");
    reveal_strlit("other");
    assert("screenshot"@.len() == 10);
    assert("preview"@.len() == 7);
    assert("video"@.len() == 5 && "video"@[0] == 'v');
    assert("demo"@.len() == 4);
    assert("other"@.len() == 5 && "other"@[0] == 'o');
}

// ── Accepted input ────────────────────────────────────────────────────────────

/// `validate_url` accepts a text exactly when it parses as a URL whose scheme
/// is `http` or `https`, whatever else it holds (path, query, fragment).
pub proof fn url_accepted_exactly_when_web(field: Seq<char>, v: Seq<char>)
    ensures
        url_problem(field, v) is None <==> (parsed_url(v) matches Some(u) && (scheme_of(u) == "http"@
            || scheme_of(u) == "https"@)),
{
}

/// Prices that `validate_price` accepts: the `fixed` and `subscription`
/// models have an amount, an amount has a currency and is not negative; and
/// every such price is accepted.
pub proof fn price_accepted_exactly_when_consistent(model: Seq<char>, amount: Option<i64>, has_currency: bool)
    ensures
        price_problem(model, amount, has_currency) is None <==> {
            &&& (model == "fixed"@ || model == "subscription"@) ==> amount is Some
            &&& amount is Some ==> has_currency
            &&& amount matches Some(a) ==> a >= 0
        },
{
}

/// An accepted product: its name is not blank and has at most 200 bytes, its
/// URL is an http(s) URL, a non-empty cover URL is an http(s) URL, and its
/// price is consistent.
pub proof fn accepted_new_product_is_well_formed(b: CreateProduct)
    requires
        new_product_problem(b) is None,
    ensures
        !is_blank(b.name@),
        byte_len(b.name@) <= 200,
        parsed_url(b.url@) matches Some(u) && (scheme_of(u) == "http"@ || scheme_of(u) == "https"@),
        b.cover_url matches Some(c) ==> c@.len() > 0 ==> (parsed_url(c@) matches Some(u) && (scheme_of(u)
            == "http"@ || scheme_of(u) == "https"@)),
        (b.price_model@ == "fixed"@ || b.price_model@ == "subscription"@) ==> b.price_amount is Some,
        b.price_amount is Some ==> b.price_currency is Some,
        b.price_amount matches Some(a) ==> a >= 0,
{
    url_accepted_exactly_when_web("url"@, b.url@);
    if let Some(c) = b.cover_url {
        if c@.len() > 0 {
            url_accepted_exactly_when_web("cover_url"@, c@);
        }
    }
    price_accepted_exactly_when_consistent(b.price_model@, b.price_amount, b.price_currency is Some);
}

/// An accepted product update stores only http(s) URLs: a new URL is one, and
/// so is a non-empty new cover URL; a new name is not blank.
pub proof fn accepted_product_update_urls_are_web(b: UpdateProduct)
    requires
        product_update_problem(b) is None,
    ensures
        b.url matches Some(u) ==> (parsed_url(u@) matches Some(x) && (scheme_of(x) == "http"@ || scheme_of(x)
            == "https"@)),
        b.cover_url matches Some(c) ==> c@.len() > 0 ==> (parsed_url(c@) matches Some(x) && (scheme_of(x)
            == "http"@ || scheme_of(x) == "https"@)),
        b.name matches Some(n) ==> !is_blank(n@),
{
    if let Some(u) = b.url {
        url_accepted_exactly_when_web("url"@, u@);
    }
    if let Some(c) = b.cover_url {
        if c@.len() > 0 {
            url_accepted_exactly_when_web("cover_url"@, c@);
        }
    }
}

/// An update that changes only a product's URL is accepted exactly when the
/// new URL is an http(s) URL (an empty one is not).
pub proof fn product_url_update_accepted_exactly_when_web(b: UpdateProduct, u: String)
    requires
        b.url == Some(u),
        b.name is None,
        b.description is None,
        b.cover_url is None,
        b.price_model is None,
        b.price_amount is None,
    ensures
        product_update_problem(b) is None <==> (parsed_url(u@) matches Some(x) && (scheme_of(x) == "http"@
            || scheme_of(x) == "https"@)),
{
    url_accepted_exactly_when_web("url"@, u@);
}

/// A shop update that changes only the logo, to a non-empty text, is accepted
/// exactly when the text is an http(s) URL.
pub proof fn shop_logo_accepted_exactly_when_web(b: UpdateShop, u: String)
    requires
        b.logo_url == Some(u),
        u@.len() > 0,
        b.name is None,
        b.description is None,
    ensures
        shop_update_problem(b) is None <==> (parsed_url(u@) matches Some(x) && (scheme_of(x) == "http"@
            || scheme_of(x) == "https"@)),
{
    url_accepted_exactly_when_web("logo_url"@, u@);
}

/// An accepted shop update: a new name is not blank and has at most 120
/// bytes, a new description at most 1000, and a non-empty new logo is an
/// http(s) URL.
pub proof fn accepted_shop_update_is_well_formed(b: UpdateShop)
    requires
        shop_update_problem(b) is None,
    ensures
        b.name matches Some(n) ==> !is_blank(n@) && byte_len(n@) <= 120,
        b.description matches Some(d) ==> byte_len(d@) <= 1000,
        b.logo_url matches Some(u) ==> u@.len() > 0 ==> (parsed_url(u@) matches Some(x) && (scheme_of(x)
            == "http"@ || scheme_of(x) == "https"@)),
{
    if let Some(u) = b.logo_url {
        if u@.len() > 0 {
            url_accepted_exactly_when_web("logo_url"@, u@);
        }
    }
}

// ── Listing links ─────────────────────────────────────────────────────────────

/// The next page's link names the following page and the same page size, in
/// decimal digits that read back as those numbers.
pub proof fn next_link_names_following_page(w: PageWindow)
    requires
        w.page >= 0,
        w.per_page >= 0,
    ensures
        exists|p: Seq<char>, q: Seq<char>|
            {
                &&& next_page_reference(w) == "/products.json?page="@ + p + "&per_page="@ + q
                &&& p.len() > 0 && q.len() > 0
                &&& forall|i: int| 0 <= i < p.len() ==> is_ascii_digit(#[trigger] p[i])
                &&& forall|i: int| 0 <= i < q.len() ==> is_ascii_digit(#[trigger] q[i])
                &&& digits_value(p) == w.page + 1
                &&& digits_value(q) == w.per_page
            },
{
    let p = decimal((w.page + 1) as nat);
    let q = decimal(w.per_page as nat);
    decimal_reads_back((w.page + 1) as nat);
    decimal_reads_back(w.per_page as nat);
    assert(next_page_reference(w) == "/products.json?page="@ + p + "&per_page="@ + q);
}

/// A shop manifest that `validate_shop_manifest` accepts declares version
/// "1", has a name, and a description of at most 1000 bytes; and every such
/// manifest is accepted.
pub proof fn accepted_manifest_exactly_when_well_formed(m: ShopManifest)
    ensures
        shop_manifest_verdict(m) is Ok <==> {
            &&& m.osp_version@ == seq!['1']
            &&& m.name@.len() > 0
            &&& m.description matches Some(d) ==> byte_len(d@) <= 1000
        },
{
    reveal_strlit("1");
    assert("1"@ =~= seq!['1']);
}

/// A product that `validate_product` accepts has an id and a name, an amount
/// where it is priced fixed or by subscription, a currency where it has an
/// amount, and a description of at most 1000 bytes; and every such product is
/// accepted.
pub proof fn accepted_product_exactly_when_well_formed(p: Product)
    ensures
        product_verdict(p) is Ok <==> {
            &&& p.id@.len() > 0
            &&& p.name@.len() > 0
            &&& (p.price.model == PriceModel::Fixed || p.price.model == PriceModel::Subscription)
                ==> p.price.amount is Some
            &&& p.price.amount is Some ==> p.price.currency is Some
            &&& p.description matches Some(d) ==> byte_len(d@) <= 1000
        },
{
}

/// A page request is kept as asked where it can be: a page number of at
/// least 1 is kept (others become 1), a page size from 1 to 100 is kept
/// (others are clamped into that range), and an absent size is the default.
pub proof fn page_request_is_kept_where_valid(page: Option<i64>, per_page: Option<i64>, default_per_page: i64)
    ensures
        page matches Some(p) ==> (p >= 1 ==> requested_page(page) == p),
        requested_page(page) >= 1,
        page is None ==> requested_page(page) == 1,
        per_page matches Some(n) ==> (1 <= n <= 100 ==> requested_per_page(per_page, default_per_page) == n),
        per_page is None && 1 <= default_per_page <= 100 ==> requested_per_page(per_page, default_per_page)
            == default_per_page,
        1 <= requested_per_page(per_page, default_per_page) <= 100,
{
}

} // verus!
