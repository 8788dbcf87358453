//! Android: the locale is the language tag of the Java runtime's default
//! locale, which is in hyphenated form already.

use vstd::prelude::*;
use crate::error::{outcome, reading, ErrorKind, LocaleError, LocaleErrorView};
use crate::LocaleProvider;

verus! {

/// The locale that the runtime's answer stands for: the tag as it came, or a
/// failed lookup described by what the runtime said.
pub open spec fn android_locale(tag: Result<Seq<char>, Seq<char>>) -> Result<
    Seq<char>,
    LocaleErrorView,
> {
    match tag {
        Ok(name) => Ok(name),
        Err(reason) => Err(LocaleErrorView::lookup_failed(Some(reason))),
    }
}

/// Turns the outcome of asking the Java runtime into the current locale. `tag`
/// is the language tag of the default locale, or what the runtime said when
/// the call failed.
pub fn current_locale(tag: Result<String, String>) -> (res: Result<String, LocaleError>)
    ensures
        outcome(res) == android_locale(reading(tag)),
{
    match tag {
        Ok(name) => Ok(name),
        Err(reason) => Err(LocaleError { kind: ErrorKind::LookupFailed, description: Some(reason) }),
    }
}

/// Android. Its answer is the outcome of asking the Java runtime: the
/// language tag of the default locale, or what the runtime said when the call
/// failed.
pub struct Android;

impl LocaleProvider for Android {
    type Answer = Result<String, String>;

    open spec fn locale_of(answer: Result<String, String>) -> Result<Seq<char>, LocaleErrorView> {
        android_locale(reading(answer))
    }

    fn locale(answer: Result<String, String>) -> (res: Result<String, LocaleError>) {
        current_locale(answer)
    }
}

} // verus!
