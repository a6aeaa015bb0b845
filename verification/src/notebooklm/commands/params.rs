//! Reading the text parameters of a request.
use vstd::prelude::*;

use crate::error::{AppError, invalid_params_message};
use crate::text::{trim, trim_seq};

verus! {

/// The characters of an optional text, none when absent.
pub open spec fn text_or_empty(param: Option<&str>) -> Seq<char> {
    match param {
        Some(p) => p@,
        None => Seq::empty(),
    }
}

/// The characters of an optional owned text, none when absent.
pub open spec fn string_or_empty(s: Option<String>) -> Seq<char> {
    match s {
        Some(t) => t@,
        None => Seq::empty(),
    }
}

/// An optional text parameter without surrounding white space; an absent one is empty.
pub fn trimmed_param(param: Option<&str>) -> (r: String)
    ensures
        r@ == trim_seq(text_or_empty(param)),
{
    match param {
        Some(p) => trim(p),
        None => String::new(),
    }
}

/// An optional owned text, empty when absent.
pub fn string_or_default(s: Option<String>) -> (r: String)
    ensures
        r@ == string_or_empty(s),
{
    match s {
        Some(t) => t,
        None => String::new(),
    }
}

/// A required text parameter: its trimmed text, or an `InvalidParams` error with
/// `message` when that is empty.
pub fn required_text(param: Option<&str>, message: &str) -> (r: Result<String, AppError>)
    ensures
        trim_seq(text_or_empty(param)).len() > 0 ==> (r matches Ok(t) && t@ == trim_seq(
            text_or_empty(param),
        )),
        trim_seq(text_or_empty(param)).len() == 0 ==> (r is Err && invalid_params_message(
            r->Err_0,
        ) == Some(message@)),
{
    let t = trimmed_param(param);
    if t.as_str().unicode_len() == 0 {
        Err(AppError::InvalidParams(String::from_str(message)))
    } else {
        Ok(t)
    }
}

} // verus!
