//! Served at `/shop.json`.
//!
//! Describes the shop itself: identity, owner, contact, categories.
//! This is what crawlers and indexes read first after discovering a shop via
//! `/.well-known/osp`.
use vstd::prelude::*;

verus! {

/// The shop manifest.
#[derive(Debug, Clone)]
pub struct ShopManifest {
    /// Protocol version. Must be "1"
    pub osp_version: String,
    /// Canonical URL of the shop (no trailing slash)
    pub url: url::Url,
    /// Display name of the shop
    pub name: String,
    /// Short description (max 280 chars recommended)
    pub description: Option<String>,
    /// Owner or creator name
    pub owner: Option<String>,
    /// Contact email (optional, public)
    pub email: Option<String>,
    /// Shop language (BCP 47, e.g. "en", "fr")
    pub lang: Option<String>,
    /// Currency used (ISO 4217, e.g. "EUR", "USD")
    pub currency: Option<String>,
    /// URL to the shop logo/avatar
    pub logo_url: Option<url::Url>,
    /// List of product category slugs this shop covers
    pub categories: Vec<String>,
    /// Freeform tags
    pub tags: Vec<String>,
    /// Social links and external profiles
    pub links: Option<ShopLinks>,
}

/// Social links and external profiles of a shop.
#[derive(Debug, Clone)]
pub struct ShopLinks {
    pub twitter: Option<String>,
    pub github: Option<String>,
    pub mastodon: Option<String>,
    pub website: Option<url::Url>,
}

} // verus!
