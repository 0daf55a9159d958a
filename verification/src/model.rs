//! Validation of the optional model identifier against the fixed allow-list.
use vstd::prelude::*;
use vstd::string::StringExecFns;
use crate::errors::{ApiError, ErrorView};
use crate::text::str_eq;

verus! {

/// The model used when the request names none.
pub open spec fn spec_default_model() -> Seq<char> {
    "gpt-4.1-mini"@
}

/// Whether a model identifier is on the allow-list.
pub open spec fn spec_model_allowed(m: Seq<char>) -> bool {
    m == "gpt-3.5-turbo"@ || m == "gpt-4.1-mini"@
}

/// The rejection text for a model identifier off the allow-list; it names
/// both supported identifiers.
pub open spec fn spec_invalid_model_message(m: Seq<char>) -> Seq<char> {
    "Invalid model '"@ + m + "'. Supported models: 'gpt-3.5-turbo', 'gpt-4.1-mini'"@
}

/// The identifier a request's optional model field resolves to, or the
/// rejection text when the field names an unsupported model.
pub open spec fn spec_resolve_model(m: Option<Seq<char>>) -> Result<Seq<char>, Seq<char>> {
    match m {
        None => Ok(spec_default_model()),
        Some(name) => if spec_model_allowed(name) {
            Ok(name)
        } else {
            Err(spec_invalid_model_message(name))
        },
    }
}

/// Resolves the optional model field: an absent field yields the default
/// model, a supported identifier is taken as given, and anything else is
/// rejected with a text naming both supported identifiers.
pub fn resolve_model(m: &Option<String>) -> (r: Result<String, ApiError>)
    ensures
        match spec_resolve_model(match m {
            Some(name) => Some(name@),
            None => None,
        }) {
            Ok(chosen) => r matches Ok(c) && c@ == chosen,
            Err(msg) => r matches Err(e) && e@ == ErrorView::BadRequest(msg),
        },
{
    match m {
        None => Ok(String::from_str("gpt-4.1-mini")),
        Some(name) => {
            if str_eq(name.as_str(), "gpt-3.5-turbo") || str_eq(name.as_str(), "gpt-4.1-mini") {
                Ok(name.clone())
            } else {
                let mut text = String::from_str("Invalid model '");
                text.append(name.as_str());
                text.append("'. Supported models: 'gpt-3.5-turbo', 'gpt-4.1-mini'");
                proof {
                    assert(text@ =~= spec_invalid_model_message(name@));
                }
                Err(ApiError::BadRequest(text))
            }
        },
    }
}

} // verus!
