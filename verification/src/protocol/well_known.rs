//! Served at `/.well-known/osp`.
//!
//! This is the entry point for any OSP-compatible crawler or client.
//! It points to the shop manifest and the product listing endpoint.
//!
//! Example:
//! ```json
//! {
//!   "osp_version": "1",
//!   "shop_url": "https://example.com/shop.json",
//!   "products_url": "https://example.com/products.json"
//! }
//! ```
use vstd::prelude::*;

use crate::web::{join_url, joined_url};

verus! {

/// The discovery document.
#[derive(Debug, Clone)]
pub struct WellKnownOsp {
    /// Protocol version. Current: "1"
    pub osp_version: String,
    /// Absolute URL to the shop manifest (`shop.json`)
    pub shop_url: url::Url,
    /// Absolute URL to the product listing (`products.json`)
    pub products_url: url::Url,
}

/// Whether both document URLs can be resolved against `base`.
pub open spec fn resolves_documents(base: url::Url) -> bool {
    &&& joined_url(base, "/shop.json"@) is Some
    &&& joined_url(base, "/products.json"@) is Some
}

/// The discovery document of a shop at `base`.
pub open spec fn is_discovery_for(w: WellKnownOsp, base: url::Url) -> bool {
    &&& w.osp_version@ == "1"@
    &&& joined_url(base, "/shop.json"@) == Some(w.shop_url)
    &&& joined_url(base, "/products.json"@) == Some(w.products_url)
}

impl WellKnownOsp {
    /// The discovery document of the shop at `base_url`, pointing at
    /// `/shop.json` and `/products.json` under it.
    pub fn new(base_url: &url::Url) -> (w: Self)
        requires
            resolves_documents(*base_url),
        ensures
            is_discovery_for(w, *base_url),
    {
        let shop_url = join_url(base_url, "/shop.json").unwrap();
        let products_url = join_url(base_url, "/products.json").unwrap();
        WellKnownOsp { osp_version: "1".to_owned(), shop_url, products_url }
    }

    /// The discovery document of the shop at `base_url`, or `None` where a
    /// document URL cannot be resolved against it.
    pub fn try_new(base_url: &url::Url) -> (w: Option<Self>)
        ensures
            w is Some <==> resolves_documents(*base_url),
            w matches Some(w) ==> is_discovery_for(w, *base_url),
    {
        let shop_url = join_url(base_url, "/shop.json");
        let products_url = join_url(base_url, "/products.json");
        match (shop_url, products_url) {
            (Some(shop_url), Some(products_url)) => Some(
                WellKnownOsp { osp_version: "1".to_owned(), shop_url, products_url },
            ),
            _ => None,
        }
    }
}

} // verus!
