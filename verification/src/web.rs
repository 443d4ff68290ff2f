//! URLs, through the `url` crate.
use vstd::prelude::*;

verus! {

/// `url::Url` is carried through the library as an opaque value.
#[verifier::external_type_specification]
#[verifier::external_body]
pub struct ExUrl(url::Url);

/// `url::Url`'s `Clone`, which `derive` writes: the copy equals the original.
pub assume_specification[ <url::Url as Clone>::clone ](u: &url::Url) -> (r: url::Url)
    ensures
        r == *u,
;

/// What `url::Url::parse` makes of a text, if it accepts it.
pub uninterp spec fn parsed_url(text: Seq<char>) -> Option<url::Url>;

/// What `url::Url::join` makes of a base and a reference, if it accepts them.
pub uninterp spec fn joined_url(base: url::Url, reference: Seq<char>) -> Option<url::Url>;

/// Calls `url::Url::parse`; claims that the result is the one named by
/// `parsed_url` for the same text (an error becomes `None`).
#[verifier::external_body]
pub fn parse_url(text: &str) -> (r: Option<url::Url>)
    ensures
        r == parsed_url(text@),
{
    url::Url::parse(text).ok()
}

/// Calls `url::Url::join`; claims that the result is the one named by
/// `joined_url` for the same base and reference (an error becomes `None`).
#[verifier::external_body]
pub fn join_url(base: &url::Url, reference: &str) -> (r: Option<url::Url>)
    ensures
        r == joined_url(*base, reference@),
{
    base.join(reference).ok()
}

/// What `url::Url::scheme` reads from a URL.
pub uninterp spec fn scheme_of(u: url::Url) -> Seq<char>;

/// Calls `url::Url::scheme`; claims that the result is the one named by
/// `scheme_of` for the same URL.
#[verifier::external_body]
pub fn url_scheme(u: &url::Url) -> (s: &str)
    ensures
        s@ == scheme_of(*u),
{
    u.scheme()
}

} // verus!
