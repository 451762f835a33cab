//! Cross-reference id resolution. A food's FDC ID is derived with a strict
//! precedence: a detail-page URL embedding an id wins over the stored id
//! field, which wins over asking the operator; without any of these the
//! food is skipped.

use vstd::prelude::*;
use crate::tandoor::{InternalTandoorFood, InternalTandoorFoodView};
use crate::text::{digits_value, is_digit_seq, parse_nonneg_i32, trim_spec, trim_ascii};

verus! {

/// The first capture of the detail-page pattern `food-details/([0-9]+)/nutrients`
/// in a text, if the pattern matches. The match depends on the text alone.
pub uninterp spec fn fdc_url_capture(s: Seq<char>) -> Option<Seq<char>>;

/// Relies on regex::Regex::new and regex::Regex::captures: the fixed
/// pattern `food-details/([0-9]+)/nutrients` always compiles, so the unwrap
/// cannot fail; `captures` returns `Some` exactly when the pattern matches
/// somewhere in the text, which depends on the text alone, and group 1 then
/// holds one or more characters of the class `[0-9]`.
#[verifier::external_body]
fn capture_fdc_digits(url: &str) -> (r: Option<String>)
    ensures
        match r {
            Some(d) => fdc_url_capture(url@) == Some(d@) && d@.len() > 0 && is_digit_seq(d@),
            None => fdc_url_capture(url@) is None,
        },
{
    let re = regex::Regex::new(r"food-details/([0-9]+)/nutrients").unwrap();
    re.captures(url).map(|c| c[1].to_string())
}

/// The id a food's URL yields: the captured digits, when the pattern
/// matches and the number fits an `i32`.
pub open spec fn url_fdc_id(url: Seq<char>) -> Option<i32> {
    match fdc_url_capture(url) {
        Some(d) => if digits_value(d) <= i32::MAX {
            Some(digits_value(d) as i32)
        } else {
            None
        },
        None => None,
    }
}

/// The id resolution precedence on the food record itself: the URL pattern
/// wins unconditionally over the stored id field.
pub open spec fn resolved_fdc_id(food: InternalTandoorFoodView) -> Option<i32> {
    match food.url {
        Some(u) => match url_fdc_id(u) {
            Some(id) => Some(id),
            None => food.fdc_id,
        },
        None => food.fdc_id,
    }
}

/// Law: a URL that matches the detail-page pattern decides the id, even
/// when a conflicting id is stored in the food's own field.
pub proof fn lemma_url_precedence(food: InternalTandoorFoodView, u: Seq<char>, d: Seq<char>)
    requires
        food.url == Some(u),
        fdc_url_capture(u) == Some(d),
        digits_value(d) <= i32::MAX,
    ensures
        resolved_fdc_id(food) == Some(digits_value(d) as i32),
{
}

/// Outcome of resolving a food's FDC ID without consulting the operator.
#[derive(Clone, Copy, Debug, PartialEq, Eq, Structural)]
pub enum IdResolution {
    /// An id was found in the URL or the stored field.
    Found(i32),
    /// Nothing stored, but interactive mode may still supply an id.
    AskUser,
    /// Nothing stored and the operator will not be asked.
    NotFound,
}

/// Resolves the FDC ID for a food from its URL field, then its stored id
/// field; failing both, reports whether the operator should be prompted.
pub fn get_fdc_id(food: &InternalTandoorFood, is_interactive: bool) -> (r: IdResolution)
    ensures
        r == (match resolved_fdc_id(food@) {
            Some(id) => IdResolution::Found(id),
            None => if is_interactive {
                IdResolution::AskUser
            } else {
                IdResolution::NotFound
            },
        }),
{
    let from_url: Option<i32> = match &food.url {
        Some(u) => match capture_fdc_digits(u.as_str()) {
            Some(d) => parse_nonneg_i32(d.as_str()),
            None => None,
        },
        None => None,
    };
    match from_url {
        Some(id) => IdResolution::Found(id),
        None => match food.fdc_id {
            Some(id) => IdResolution::Found(id),
            None => if is_interactive {
                IdResolution::AskUser
            } else {
                IdResolution::NotFound
            },
        },
    }
}

/// A line of operator input, classified.
#[derive(Clone, Copy, Debug, PartialEq, Eq, Structural)]
pub enum UserIdInput {
    /// The operator submitted an empty line: skip this food.
    Skip,
    /// The operator submitted a usable non-negative id.
    Id(i32),
    /// The line was not a usable number: ask again.
    Invalid,
}

/// How a line of console input is read: whitespace is trimmed, an empty
/// line skips the food, and otherwise the line must be a non-negative
/// decimal number that fits an `i32`.
pub open spec fn classify_line(line: Seq<char>) -> UserIdInput {
    let t = trim_spec(line);
    if t.len() == 0 {
        UserIdInput::Skip
    } else if is_digit_seq(t) && digits_value(t) <= i32::MAX {
        UserIdInput::Id(digits_value(t) as i32)
    } else {
        UserIdInput::Invalid
    }
}

/// Classifies one line of operator input per [`classify_line`].
pub fn classify_user_response(line: &str) -> (r: UserIdInput)
    ensures
        r == classify_line(line@),
{
    let t = trim_ascii(line);
    if t.as_str().unicode_len() == 0 {
        UserIdInput::Skip
    } else {
        match parse_nonneg_i32(t.as_str()) {
            Some(id) => UserIdInput::Id(id),
            None => UserIdInput::Invalid,
        }
    }
}

} // verus!
