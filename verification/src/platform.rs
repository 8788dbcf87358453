//! The POSIX lookup with a flat error type, for callers that want to match on
//! the error itself.

use vstd::prelude::*;

pub use crate::platform::linux::format_raw_user_lang;

pub mod linux;

verus! {

/// Why the lookup gave no language tag.
#[derive(Debug)]
pub enum OsLocaleError {
    /// A value was found, but it does not have the shape of a locale name.
    /// The value is kept as it was found.
    NotIetfCompliant(String),
    /// The operating system had no value.
    OsLookupFailure,
}

/// An `OsLocaleError` as a mathematical value.
pub enum OsLocaleErrorView {
    NotIetfCompliant(Seq<char>),
    OsLookupFailure,
}

impl View for OsLocaleError {
    type V = OsLocaleErrorView;

    open spec fn view(&self) -> OsLocaleErrorView {
        match *self {
            OsLocaleError::NotIetfCompliant(raw) => OsLocaleErrorView::NotIetfCompliant(raw@),
            OsLocaleError::OsLookupFailure => OsLocaleErrorView::OsLookupFailure,
        }
    }
}

/// A result of this interface as a mathematical value.
pub open spec fn os_outcome(res: Result<String, OsLocaleError>) -> Result<
    Seq<char>,
    OsLocaleErrorView,
> {
    match res {
        Ok(tag) => Ok(tag@),
        Err(error) => Err(error@),
    }
}

} // verus!
