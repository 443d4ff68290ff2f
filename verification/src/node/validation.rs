//! Checks on the values an administrator submits.
use vstd::prelude::*;

use crate::node::error::{invalid, rejection, AppError, AppResult};
use crate::text::{byte_len, decimal, is_blank, push_decimal, same_text, trims_to_empty};
use crate::web::{parse_url, parsed_url, scheme_of, url_scheme};

verus! {

/// Whether a text is an absolute URL with the `http` or `https` scheme.
pub open spec fn is_web_url(val: Seq<char>) -> bool {
    parsed_url(val) matches Some(u) && (scheme_of(u) == "http"@ || scheme_of(u) == "https"@)
}

/// What `validate_url` explains, if the text is no http(s) URL.
pub open spec fn url_problem(field: Seq<char>, val: Seq<char>) -> Option<Seq<char>> {
    if is_web_url(val) {
        None
    } else {
        Some("'"@ + field + "' must be a valid http(s) URL"@)
    }
}

/// What `require_str` explains, if the text is blank.
pub open spec fn required_problem(field: Seq<char>, val: Seq<char>) -> Option<Seq<char>> {
    if is_blank(val) {
        Some("'"@ + field + "' is required"@)
    } else {
        None
    }
}

/// What `max_len` explains, if the text has more than `max` bytes.
pub open spec fn length_problem(field: Seq<char>, val: Seq<char>, max: usize) -> Option<Seq<char>> {
    if byte_len(val) > max {
        Some(
            "'"@ + field + "' must be at most "@ + decimal(max as nat) + " characters (got "@
                + decimal(byte_len(val) as nat) + ")"@,
        )
    } else {
        None
    }
}

/// What `validate_price_amount` explains, if the amount is negative.
pub open spec fn amount_problem(amount: Option<i64>) -> Option<Seq<char>> {
    if amount matches Some(a) && a < 0 {
        Some("'price_amount' must be >= 0"@)
    } else {
        None
    }
}

/// Whether a pricing model needs an amount.
pub open spec fn model_needs_amount(model: Seq<char>) -> bool {
    model == "fixed"@ || model == "subscription"@
}

/// What `validate_price` explains, if model, amount and currency disagree.
pub open spec fn price_problem(model: Seq<char>, amount: Option<i64>, has_currency: bool) -> Option<Seq<char>> {
    if model_needs_amount(model) && amount is None {
        Some("'price_amount' is required for price model '"@ + model + "'"@)
    } else if amount is Some && !has_currency {
        Some("'price_currency' is required when 'price_amount' is set"@)
    } else {
        amount_problem(amount)
    }
}

/// Validate a URL string — must be http or https
pub fn validate_url(field: &str, val: &str) -> (r: AppResult<()>)
    ensures
        rejection(r) == invalid(url_problem(field@, val@)),
{
    let accepted = match parse_url(val) {
        Some(u) => {
            let scheme = url_scheme(&u);
            same_text(scheme, "http") || same_text(scheme, "https")
        },
        None => false,
    };
    if accepted {
        Ok(())
    } else {
        let mut m = String::new();
        m.append("'");
        m.append(field);
        m.append("' must be a valid http(s) URL");
        assert(m@ =~= "'"@ + field@ + "' must be a valid http(s) URL"@);
        Err(AppError::Validation(m))
    }
}

/// Validate a string is not empty
pub fn require_str(field: &str, val: &str) -> (r: AppResult<()>)
    ensures
        rejection(r) == invalid(required_problem(field@, val@)),
{
    if trims_to_empty(val) {
        let mut m = String::new();
        m.append("'");
        m.append(field);
        m.append("' is required");
        assert(m@ =~= "'"@ + field@ + "' is required"@);
        Err(AppError::Validation(m))
    } else {
        Ok(())
    }
}

/// Validate max string length
pub fn max_len(field: &str, val: &str, max: usize) -> (r: AppResult<()>)
    ensures
        rejection(r) == invalid(length_problem(field@, val@, max)),
{
    let got = val.len();
    if got > max {
        let mut m = String::new();
        m.append("'");
        m.append(field);
        m.append("' must be at most ");
        push_decimal(&mut m, max as u64);
        m.append(" characters (got ");
        push_decimal(&mut m, got as u64);
        m.append(")");
        assert(m@ =~= "'"@ + field@ + "' must be at most "@ + decimal(max as nat) + " characters (got "@
            + decimal(byte_len(val@) as nat) + ")"@);
        Err(AppError::Validation(m))
    } else {
        Ok(())
    }
}

/// Validate price_amount is positive
pub fn validate_price_amount(amount: Option<i64>) -> (r: AppResult<()>)
    ensures
        rejection(r) == invalid(amount_problem(amount)),
{
    if let Some(a) = amount {
        if a < 0 {
            return Err(AppError::Validation("'price_amount' must be >= 0".to_owned()));
        }
    }
    Ok(())
}

/// Validate price_model + amount consistency
pub fn validate_price(model: &str, amount: Option<i64>, currency: Option<&str>) -> (r: AppResult<()>)
    ensures
        rejection(r) == invalid(price_problem(model@, amount, currency is Some)),
{
    if (same_text(model, "fixed") || same_text(model, "subscription")) && amount.is_none() {
        let mut m = String::new();
        m.append("'price_amount' is required for price model '");
        m.append(model);
        m.append("'");
        assert(m@ =~= "'price_amount' is required for price model '"@ + model@ + "'"@);
        return Err(AppError::Validation(m));
    }
    if amount.is_some() && currency.is_none() {
        return Err(
            AppError::Validation("'price_currency' is required when 'price_amount' is set".to_owned()),
        );
    }
    validate_price_amount(amount)?;
    Ok(())
}

} // verus!
