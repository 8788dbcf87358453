//! Normalization of the locale names that operating systems report into
//! hyphenated language tags such as `en-US`.
//!
//! Each family of operating systems has its own way of naming the user's
//! locale, and a [`LocaleProvider`] for it. A caller asks its host and hands
//! the answer to [`current_locale`], which reads it by the rules of the family
//! that the caller was built for.

use vstd::prelude::*;
use crate::error::{outcome, LocaleErrorView};

pub use crate::error::{ErrorKind, LocaleError};
pub use crate::platform::OsLocaleError;

pub mod android;
pub mod apple;
pub mod error;
pub mod ietf;
pub mod platform;
pub mod unix;
pub mod windows;

verus! {

/// A family of operating systems, as the way to read what its locale facility
/// hands back.
pub trait LocaleProvider {
    /// What the locale facility of the host hands back.
    type Answer;

    /// The locale that an answer stands for.
    spec fn locale_of(answer: Self::Answer) -> Result<Seq<char>, LocaleErrorView>;

    /// Turns an answer of the host into the current locale.
    fn locale(answer: Self::Answer) -> (res: Result<String, LocaleError>)
        ensures
            outcome(res) == Self::locale_of(answer),
    ;
}

/// Returns the current locale as a language tag, or the reason why there is
/// none. The family `P` is fixed where the caller is built, so nothing is
/// decided here at run time. One answer of the host gives one result: nothing
/// is retried and no other source is consulted.
pub fn current_locale<P: LocaleProvider>(answer: P::Answer) -> (res: Result<String, LocaleError>)
    ensures
        outcome(res) == P::locale_of(answer),
{
    P::locale(answer)
}

} // verus!
