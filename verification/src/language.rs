//! Validation of language codes and resolution of a code to the display name
//! used in prompts. The standard code catalogs come from the `isolang` crate;
//! two extended tags and a defensive fallback are layered on top.
use vstd::prelude::*;
use vstd::string::StringExecFns;
use crate::text::{seq_ci_eq, str_eq_ignore_ascii_case};

verus! {

/// The English name that the ISO 639-1 (two-letter) catalog gives a code, if
/// the code is listed; left abstract because the catalog is a large fixed
/// table.
pub uninterp spec fn iso_639_1_name(code: Seq<char>) -> Option<Seq<char>>;

/// The English name that the ISO 639-3 (three-letter) catalog gives a code,
/// if the code is listed; left abstract because the catalog is a large fixed
/// table.
pub uninterp spec fn iso_639_3_name(code: Seq<char>) -> Option<Seq<char>>;

/// Relies on isolang's `Language::from_639_1` (a lookup in a static
/// two-letter code table) composed with `Language::to_name` (the English name
/// from the same static table): the result is a function of the code alone.
#[verifier::external_body]
fn lookup_639_1(code: &str) -> (r: Option<String>)
    ensures
        r is Some <==> iso_639_1_name(code@) is Some,
        r matches Some(n) ==> iso_639_1_name(code@) == Some(n@),
{
    isolang::Language::from_639_1(code).map(|l| l.to_name().to_owned())
}

/// Relies on isolang's `Language::from_639_3` (a lookup in a static
/// three-letter code table) composed with `Language::to_name` (the English
/// name from the same static table): the result is a function of the code
/// alone.
#[verifier::external_body]
fn lookup_639_3(code: &str) -> (r: Option<String>)
    ensures
        r is Some <==> iso_639_3_name(code@) is Some,
        r matches Some(n) ==> iso_639_3_name(code@) == Some(n@),
{
    isolang::Language::from_639_3(code).map(|l| l.to_name().to_owned())
}

/// Whether a code is one of the two extended tags, compared without regard to
/// ASCII letter case.
pub open spec fn spec_is_special_tag(code: Seq<char>) -> bool {
    seq_ci_eq(code, "zh-cn"@) || seq_ci_eq(code, "zh-tw"@)
}

/// Whether a code passes validation: listed in either standard catalog, or
/// one of the two extended tags.
pub open spec fn spec_valid_code(code: Seq<char>) -> bool {
    ||| iso_639_1_name(code) is Some
    ||| iso_639_3_name(code) is Some
    ||| spec_is_special_tag(code)
}

/// Whether a raw language code is accepted: a recognized ISO 639-1 or
/// ISO 639-3 code, or one of the extended tags `zh-cn` / `zh-tw`.
pub fn is_valid_language_code(code: &str) -> (r: bool)
    ensures
        r == spec_valid_code(code@),
{
    if lookup_639_1(code).is_some() {
        true
    } else if lookup_639_3(code).is_some() {
        true
    } else {
        str_eq_ignore_ascii_case(code, "zh-cn") || str_eq_ignore_ascii_case(code, "zh-tw")
    }
}

/// The defensive display text for a code that no catalog lists.
pub open spec fn spec_fallback_name(code: Seq<char>) -> Seq<char> {
    "the language with code '"@ + code + "'"@
}

/// The display name a code resolves to: the 639-1 catalog name, else the
/// 639-3 catalog name, else the fixed name of an extended tag, else the
/// defensive fallback text.
pub open spec fn spec_language_name(code: Seq<char>) -> Seq<char> {
    if iso_639_1_name(code) is Some {
        iso_639_1_name(code)->Some_0
    } else if iso_639_3_name(code) is Some {
        iso_639_3_name(code)->Some_0
    } else if seq_ci_eq(code, "zh-cn"@) {
        "Chinese (Simplified)"@
    } else if seq_ci_eq(code, "zh-tw"@) {
        "Chinese (Traditional)"@
    } else {
        spec_fallback_name(code)
    }
}

/// The name validation vouches for: the catalog name or the fixed name of an
/// extended tag, and `None` exactly when validation rejects the code.
pub open spec fn spec_catalog_name(code: Seq<char>) -> Option<Seq<char>> {
    if iso_639_1_name(code) is Some {
        iso_639_1_name(code)
    } else if iso_639_3_name(code) is Some {
        iso_639_3_name(code)
    } else if seq_ci_eq(code, "zh-cn"@) {
        Some("Chinese (Simplified)"@)
    } else if seq_ci_eq(code, "zh-tw"@) {
        Some("Chinese (Traditional)"@)
    } else {
        None
    }
}

/// Law: validation and name resolution stay consistent. A code is accepted
/// exactly when it has a catalog or extended-tag name, and an accepted code
/// always resolves to that name — never to the defensive fallback text.
pub proof fn lemma_valid_code_never_falls_back(code: Seq<char>)
    ensures
        spec_valid_code(code) <==> spec_catalog_name(code) is Some,
        spec_valid_code(code) ==> spec_language_name(code) == spec_catalog_name(code)->Some_0,
{
}

/// Resolves a language code to the display name used in prompts.
pub fn get_language_name(code: &str) -> (r: String)
    ensures
        r@ == spec_language_name(code@),
{
    match lookup_639_1(code) {
        Some(name) => name,
        None => match lookup_639_3(code) {
            Some(name) => name,
            None => {
                if str_eq_ignore_ascii_case(code, "zh-cn") {
                    String::from_str("Chinese (Simplified)")
                } else if str_eq_ignore_ascii_case(code, "zh-tw") {
                    String::from_str("Chinese (Traditional)")
                } else {
                    let mut text = String::from_str("the language with code '");
                    text.append(code);
                    text.append("'");
                    proof {
                        assert(text@ =~= spec_fallback_name(code@));
                    }
                    text
                }
            },
        },
    }
}

} // verus!
