//! Linux-like systems keep the locale in the `LANG` environment variable.

use vstd::prelude::*;
use crate::ietf::{has_separator, ietf_tag, is_ietf_tag, lemma_ietf_tag_is_normal, normalize};
use crate::platform::{os_outcome, OsLocaleError, OsLocaleErrorView};
use crate::unix::is_unset_locale;

verus! {

/// What a raw locale value is formatted to: its tag where it carries a
/// character-set suffix, and otherwise the error that hands the value back.
pub open spec fn formatted(raw: Seq<char>) -> Result<Seq<char>, OsLocaleErrorView> {
    if has_separator(raw) {
        Ok(ietf_tag(raw))
    } else {
        Err(OsLocaleErrorView::NotIetfCompliant(raw))
    }
}

/// The locale that the content of `LANG` stands for. `C` stands for U.S.
/// English and is never parsed; any other value is formatted; without a value
/// the lookup has failed.
pub open spec fn user_locale(lang: Option<Seq<char>>) -> Result<Seq<char>, OsLocaleErrorView> {
    match lang {
        Some(raw) => if raw == "C"@ {
            Ok("en-US"@)
        } else {
            formatted(raw)
        },
        None => Err(OsLocaleErrorView::OsLookupFailure),
    }
}

/// Splits the language code off a raw locale value: cuts the value at its
/// first dot or space, writes hyphens for underscores and drops everything
/// from an `@` on.
pub fn format_raw_user_lang(raw: String) -> (res: Result<String, OsLocaleError>)
    ensures
        os_outcome(res) == formatted(raw@),
        res matches Ok(tag) ==> is_ietf_tag(tag@),
{
    proof {
        lemma_ietf_tag_is_normal(raw@);
    }
    match normalize(raw.as_str()) {
        Some(tag) => Ok(tag),
        None => Err(OsLocaleError::NotIetfCompliant(raw)),
    }
}

/// Turns the content of `LANG` into the user's locale. `lang` is the value of
/// the variable, or `None` where it is not set.
pub fn _get_user_locale(lang: Option<String>) -> (res: Result<String, OsLocaleError>)
    ensures
        os_outcome(res) == user_locale(lang.deep_view()),
        res matches Ok(tag) ==> is_ietf_tag(tag@),
{
    proof {
        reveal_strlit("en-US");
    }
    match lang {
        Some(raw) => {
            if is_unset_locale(raw.as_str()) {
                Ok("en-US".to_owned())
            } else {
                format_raw_user_lang(raw)
            }
        },
        None => Err(OsLocaleError::OsLookupFailure),
    }
}

} // verus!
