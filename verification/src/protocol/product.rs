//! Core product types.
//!
//! `ProductListing` is served at `/products.json` and contains a list of
//! `Product`. Each product is a self-contained description of a digital good.
use vstd::prelude::*;

verus! {

/// Served at `/products.json`.
#[derive(Debug, Clone)]
pub struct ProductListing {
    /// Protocol version. Must be "1"
    pub osp_version: String,
    /// Canonical shop URL (must match shop.json)
    pub shop_url: url::Url,
    /// Total number of products (may exceed this page)
    pub total: u64,
    /// Pagination: current page (1-indexed)
    pub page: Option<u32>,
    /// URL to the next page, if any
    pub next_url: Option<url::Url>,
    /// The products on this page
    pub products: Vec<Product>,
}

/// A digital good offered by a shop.
#[derive(Debug, Clone)]
pub struct Product {
    /// Stable unique identifier within this shop (slug or UUID)
    pub id: String,
    /// Display name
    pub name: String,
    /// Short description (max 280 chars recommended)
    pub description: Option<String>,
    /// Long-form description, may contain Markdown
    pub long_description: Option<String>,
    /// Canonical URL of the product page
    pub url: url::Url,
    /// Product type
    pub product_type: ProductType,
    /// Pricing model
    pub price: ProductPrice,
    /// License under which this product is distributed
    pub license: Option<License>,
    /// Cover image URL
    pub cover_url: Option<url::Url>,
    /// Additional media (screenshots, previews, demo videos)
    pub assets: Vec<ProductAsset>,
    /// Category slugs (e.g. "fonts", "templates", "tools")
    pub categories: Vec<String>,
    /// Freeform tags
    pub tags: Vec<String>,
    /// ISO 8601 creation date
    pub created_at: Option<String>,
    /// ISO 8601 last-updated date
    pub updated_at: Option<String>,
    /// Current version string (semver or freeform)
    pub version: Option<String>,
}

/// The kind of good a product is.
#[derive(Debug, Clone, PartialEq, Eq, Structural)]
pub enum ProductType {
    /// Downloadable file (font, template, preset, zip…)
    Download,
    /// SaaS / subscription access
    Subscription,
    /// One-time access to a hosted tool
    Tool,
    /// Written content (ebook, guide, course)
    Content,
    /// Physical product (edge case, allowed by the spec)
    Physical,
    /// Any other type not covered above
    Other,
}

/// How a product is priced.
#[derive(Debug, Clone)]
pub struct ProductPrice {
    pub model: PriceModel,
    /// Amount in minor units (e.g. cents). Required for `fixed` and `min` models.
    pub amount: Option<u64>,
    /// ISO 4217 currency code (e.g. "EUR", "USD")
    pub currency: Option<String>,
}

/// The pricing model of a product.
#[derive(Debug, Clone, PartialEq, Eq, Structural)]
pub enum PriceModel {
    /// Fixed price
    Fixed,
    /// Pay what you want (optionally with a minimum)
    PayWhatYouWant,
    /// Free
    Free,
    /// Recurring subscription
    Subscription,
}

/// A piece of media attached to a product.
#[derive(Debug, Clone)]
pub struct ProductAsset {
    pub asset_type: AssetType,
    pub url: url::Url,
    pub alt: Option<String>,
}

/// The kind of media an asset is.
#[derive(Debug, Clone, PartialEq, Eq, Structural)]
pub enum AssetType {
    Screenshot,
    Preview,
    Video,
    Demo,
    Other,
}

/// The license under which a product is distributed.
#[derive(Debug, Clone)]
pub struct License {
    /// SPDX identifier if applicable (e.g. "MIT", "Apache-2.0", "CC-BY-4.0")
    pub spdx: Option<String>,
    /// Human-readable license name
    pub name: Option<String>,
    /// URL to the full license text
    pub url: Option<url::Url>,
}

/// The name that `Debug` gives a pricing model.
pub open spec fn price_model_name(m: PriceModel) -> Seq<char> {
    match m {
        PriceModel::Fixed => "Fixed"@,
        PriceModel::PayWhatYouWant => "PayWhatYouWant"@,
        PriceModel::Free => "Free"@,
        PriceModel::Subscription => "Subscription"@,
    }
}

impl PriceModel {
    /// The name of the model, as `format!("{:?}", model)` writes it.
    pub fn debug_name(&self) -> (s: String)
        ensures
            s@ == price_model_name(*self),
    {
        match self {
            PriceModel::Fixed => "Fixed".to_owned(),
            PriceModel::PayWhatYouWant => "PayWhatYouWant".to_owned(),
            PriceModel::Free => "Free".to_owned(),
            PriceModel::Subscription => "Subscription".to_owned(),
        }
    }
}

} // verus!
