//! Apple systems: the locale is the identifier of Foundation's current locale.

use vstd::prelude::*;
use crate::error::{outcome, ErrorKind, LocaleError, LocaleErrorView};
use crate::ietf::{hyphenate, hyphenated, lemma_hyphenated_has_no_underscore};
use crate::LocaleProvider;

verus! {

/// The locale that an identifier stands for: the identifier with hyphens for
/// its underscores and otherwise untouched, so that a modifier stays. Without
/// an identifier the lookup has failed.
pub open spec fn apple_locale(identifier: Option<Seq<char>>) -> Result<
    Seq<char>,
    LocaleErrorView,
> {
    match identifier {
        Some(name) => Ok(hyphenated(name)),
        None => Err(LocaleErrorView::lookup_failed(None)),
    }
}

/// Turns the answer of the locale service into the current locale.
/// `identifier` is the identifier of the current locale, or `None` where the
/// service gave none.
pub fn current_locale(identifier: Option<String>) -> (res: Result<String, LocaleError>)
    ensures
        outcome(res) == apple_locale(identifier.deep_view()),
        res matches Ok(tag) ==> !tag@.contains('_'),
{
    match identifier {
        Some(name) => {
            proof {
                lemma_hyphenated_has_no_underscore(name@);
            }
            Ok(hyphenate(name.as_str()))
        },
        None => Err(LocaleError::from(ErrorKind::LookupFailed)),
    }
}

/// Apple systems. Their answer is the identifier of Foundation's current
/// locale, or `None` where the locale service gave none.
pub struct Apple;

impl LocaleProvider for Apple {
    type Answer = Option<String>;

    open spec fn locale_of(answer: Option<String>) -> Result<Seq<char>, LocaleErrorView> {
        apple_locale(answer.deep_view())
    }

    fn locale(answer: Option<String>) -> (res: Result<String, LocaleError>)
        ensures
            res matches Ok(tag) ==> !tag@.contains('_'),
    {
        current_locale(answer)
    }
}

} // verus!
