//! The rules a shop manifest and a product must follow.
use vstd::prelude::*;

use crate::protocol::manifest::ShopManifest;
use crate::protocol::product::{price_model_name, PriceModel, Product};
use crate::text::{byte_len, decimal, push_decimal, same_text};

verus! {

/// Why a document breaks the protocol's rules.
#[derive(Debug)]
pub enum ValidationError {
    /// `osp_version` is not "1"; holds the version found.
    UnsupportedVersion(String),
    /// A required field is empty; holds its name.
    MissingField(&'static str),
    /// A field is longer than allowed, in bytes.
    TooLong { field: &'static str, max: usize, got: usize },
    /// A priced model has no amount; holds the model's name.
    MissingAmount(String),
    /// An amount is given without a currency.
    MissingCurrency,
}

/// A `ValidationError` with its texts taken as character sequences.
pub enum ValidationErrorView {
    UnsupportedVersion(Seq<char>),
    MissingField(Seq<char>),
    TooLong { field: Seq<char>, max: usize, got: usize },
    MissingAmount(Seq<char>),
    MissingCurrency,
}

impl View for ValidationError {
    type V = ValidationErrorView;

    open spec fn view(&self) -> ValidationErrorView {
        match self {
            ValidationError::UnsupportedVersion(v) => ValidationErrorView::UnsupportedVersion(v@),
            ValidationError::MissingField(f) => ValidationErrorView::MissingField(f@),
            ValidationError::TooLong { field, max, got } => ValidationErrorView::TooLong {
                field: field@,
                max: *max,
                got: *got,
            },
            ValidationError::MissingAmount(m) => ValidationErrorView::MissingAmount(m@),
            ValidationError::MissingCurrency => ValidationErrorView::MissingCurrency,
        }
    }
}

/// The outcome of a validation, with the error taken by its view.
pub open spec fn verdict(r: Result<(), ValidationError>) -> Result<(), ValidationErrorView> {
    match r {
        Ok(()) => Ok(()),
        Err(e) => Err(e@),
    }
}

/// The largest description, in bytes, that a document may carry.
pub const MAX_DESCRIPTION_BYTES: usize = 1000;

/// The error a description over the limit gives, if it is over the limit.
pub open spec fn description_verdict(description: Option<String>) -> Result<(), ValidationErrorView> {
    match description {
        Some(d) => if byte_len(d@) > MAX_DESCRIPTION_BYTES {
            Err(ValidationErrorView::TooLong { field: "description"@, max: MAX_DESCRIPTION_BYTES, got: byte_len(d@) })
        } else {
            Ok(())
        },
        None => Ok(()),
    }
}

/// What `validate_shop_manifest` decides: the first rule broken, in order,
/// among the version, the name and the description's length.
pub open spec fn shop_manifest_verdict(m: ShopManifest) -> Result<(), ValidationErrorView> {
    if m.osp_version@ != "1"@ {
        Err(ValidationErrorView::UnsupportedVersion(m.osp_version@))
    } else if m.name@.len() == 0 {
        Err(ValidationErrorView::MissingField("name"@))
    } else {
        description_verdict(m.description)
    }
}

/// The models that require an amount.
pub open spec fn requires_amount(m: PriceModel) -> bool {
    m == PriceModel::Fixed || m == PriceModel::Subscription
}

/// What `validate_product` decides: the first rule broken, in order, among
/// the id, the name, the amount, the currency and the description's length.
pub open spec fn product_verdict(p: Product) -> Result<(), ValidationErrorView> {
    if p.id@.len() == 0 {
        Err(ValidationErrorView::MissingField("id"@))
    } else if p.name@.len() == 0 {
        Err(ValidationErrorView::MissingField("name"@))
    } else if requires_amount(p.price.model) && p.price.amount is None {
        Err(ValidationErrorView::MissingAmount(price_model_name(p.price.model)))
    } else if p.price.amount is Some && p.price.currency is None {
        Err(ValidationErrorView::MissingCurrency)
    } else {
        description_verdict(p.description)
    }
}

fn check_description(description: &Option<String>) -> (r: Result<(), ValidationError>)
    ensures
        verdict(r) == description_verdict(*description),
{
    if let Some(desc) = description {
        let got = desc.as_str().len();
        if got > MAX_DESCRIPTION_BYTES {
            return Err(ValidationError::TooLong { field: "description", max: MAX_DESCRIPTION_BYTES, got });
        }
    }
    Ok(())
}

/// Checks a shop manifest against the protocol's rules.
pub fn validate_shop_manifest(manifest: &ShopManifest) -> (r: Result<(), ValidationError>)
    ensures
        verdict(r) == shop_manifest_verdict(*manifest),
{
    if !same_text(manifest.osp_version.as_str(), "1") {
        return Err(ValidationError::UnsupportedVersion(manifest.osp_version.clone()));
    }
    if manifest.name.as_str().is_empty() {
        return Err(ValidationError::MissingField("name"));
    }
    check_description(&manifest.description)
}

/// Checks a product against the protocol's rules.
pub fn validate_product(product: &Product) -> (r: Result<(), ValidationError>)
    ensures
        verdict(r) == product_verdict(*product),
{
    if product.id.as_str().is_empty() {
        return Err(ValidationError::MissingField("id"));
    }
    if product.name.as_str().is_empty() {
        return Err(ValidationError::MissingField("name"));
    }
    let price = &product.price;
    match price.model {
        PriceModel::Fixed | PriceModel::Subscription => {
            if price.amount.is_none() {
                return Err(ValidationError::MissingAmount(price.model.debug_name()));
            }
        },
        PriceModel::PayWhatYouWant | PriceModel::Free => {},
    }
    if price.amount.is_some() && price.currency.is_none() {
        return Err(ValidationError::MissingCurrency);
    }
    check_description(&product.description)
}

/// The text a validation error reads as.
pub open spec fn error_message(e: ValidationErrorView) -> Seq<char> {
    match e {
        ValidationErrorView::UnsupportedVersion(v) => "osp_version must be '1', got '"@ + v + "'"@,
        ValidationErrorView::MissingField(f) => "field '"@ + f + "' is required"@,
        ValidationErrorView::TooLong { field, max, got } => "field '"@ + field + "' is too long (max "@
            + decimal(max as nat) + " chars, got "@ + decimal(got as nat) + ")"@,
        ValidationErrorView::MissingAmount(m) => "price.amount is required for model '"@ + m + "'"@,
        ValidationErrorView::MissingCurrency => "price.currency is required when amount is set"@,
    }
}

impl ValidationError {
    /// The text of the error, as its `Display` writes it.
    pub fn message(&self) -> (s: String)
        ensures
            s@ == error_message(self@),
    {
        let mut s = String::new();
        match self {
            ValidationError::UnsupportedVersion(v) => {
                s.append("osp_version must be '1', got '");
                s.append(v.as_str());
                s.append("'");
            },
            ValidationError::MissingField(f) => {
                s.append("field '");
                s.append(f);
                s.append("' is required");
            },
            ValidationError::TooLong { field, max, got } => {
                s.append("field '");
                s.append(field);
                s.append("' is too long (max ");
                push_decimal(&mut s, *max as u64);
                s.append(" chars, got ");
                push_decimal(&mut s, *got as u64);
                s.append(")");
            },
            ValidationError::MissingAmount(m) => {
                s.append("price.amount is required for model '");
                s.append(m.as_str());
                s.append("'");
            },
            ValidationError::MissingCurrency => {
                s.append("price.currency is required when amount is set");
            },
        }
        assert(s@ =~= error_message(self@));
        s
    }
}

} // verus!
