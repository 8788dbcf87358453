//! Why no language tag could be produced.

use vstd::prelude::*;
use vstd::std_specs::convert::FromSpecImpl;
use vstd::string::StringExecFns;

verus! {

/// A kind of error that may occur when looking up the current locale.
#[derive(Debug)]
pub enum ErrorKind {
    /// A value was obtained, but it does not have the shape of a locale name.
    /// The value is kept as it was found.
    NotIetfCompliant(String),
    /// The operating system produced no value at all.
    LookupFailed,
}

/// An `ErrorKind` as a mathematical value.
pub enum ErrorKindView {
    NotIetfCompliant(Seq<char>),
    LookupFailed,
}

impl View for ErrorKind {
    type V = ErrorKindView;

    open spec fn view(&self) -> ErrorKindView {
        match *self {
            ErrorKind::NotIetfCompliant(raw) => ErrorKindView::NotIetfCompliant(raw@),
            ErrorKind::LookupFailed => ErrorKindView::LookupFailed,
        }
    }
}

impl ErrorKindView {
    /// The sentence that names this kind of error.
    pub open spec fn message(self) -> Seq<char> {
        match self {
            ErrorKindView::NotIetfCompliant(_) => "locale code returned is not ietf compliant"@,
            ErrorKindView::LookupFailed => "getting locale from system failed"@,
        }
    }
}

impl ErrorKind {
    /// The sentence that names this kind of error.
    pub fn to_string(&self) -> (text: String)
        ensures
            text@ == self@.message(),
    {
        match self {
            ErrorKind::NotIetfCompliant(_) => "locale code returned is not ietf compliant".to_owned(),
            ErrorKind::LookupFailed => "getting locale from system failed".to_owned(),
        }
    }
}

/// An error that may occur when looking up the current locale.
#[derive(Debug)]
pub struct LocaleError {
    /// What went wrong.
    pub kind: ErrorKind,
    /// What the operating system said about it, if it said anything.
    pub description: Option<String>,
}

/// A `LocaleError` as a mathematical value.
pub struct LocaleErrorView {
    pub kind: ErrorKindView,
    pub description: Option<Seq<char>>,
}

impl View for LocaleError {
    type V = LocaleErrorView;

    open spec fn view(&self) -> LocaleErrorView {
        LocaleErrorView {
            kind: self.kind@,
            description: match self.description {
                Some(text) => Some(text@),
                None => None,
            },
        }
    }
}

impl LocaleErrorView {
    /// The error that reports a raw value of unrecognized shape.
    pub open spec fn not_ietf_compliant(raw: Seq<char>) -> LocaleErrorView {
        LocaleErrorView { kind: ErrorKindView::NotIetfCompliant(raw), description: None }
    }

    /// The error that reports a failed lookup, with what is known about it.
    pub open spec fn lookup_failed(description: Option<Seq<char>>) -> LocaleErrorView {
        LocaleErrorView { kind: ErrorKindView::LookupFailed, description }
    }

    /// The sentence that names the kind of error, followed by a colon and the
    /// description where there is one.
    pub open spec fn message(self) -> Seq<char> {
        match self.description {
            Some(text) => self.kind.message() + ": "@ + text,
            None => self.kind.message(),
        }
    }
}

impl LocaleError {
    /// Returns the kind of the error.
    pub fn kind(self) -> (kind: ErrorKind)
        ensures
            kind == self.kind,
    {
        self.kind
    }

    /// The sentence that names the kind of error, followed by a colon and the
    /// description where there is one.
    pub fn to_string(&self) -> (text: String)
        ensures
            text@ == self@.message(),
    {
        let mut text = self.kind.to_string();
        match &self.description {
            Some(description) => {
                text.append(": ");
                text.append(description.as_str());
            },
            None => {},
        }
        text
    }
}

/// A result of a locale lookup as a mathematical value.
pub open spec fn outcome(res: Result<String, LocaleError>) -> Result<Seq<char>, LocaleErrorView> {
    match res {
        Ok(tag) => Ok(tag@),
        Err(error) => Err(error@),
    }
}

/// What a platform call handed back, as a mathematical value: the text it
/// produced, or what it said when it failed.
pub open spec fn reading(text: Result<String, String>) -> Result<Seq<char>, Seq<char>> {
    match text {
        Ok(value) => Ok(value@),
        Err(reason) => Err(reason@),
    }
}

impl From<ErrorKind> for LocaleError {
    /// An error of the given kind without a description.
    fn from(kind: ErrorKind) -> (error: LocaleError) {
        LocaleError { kind, description: None }
    }
}

impl FromSpecImpl<ErrorKind> for LocaleError {
    open spec fn obeys_from_spec() -> bool {
        true
    }

    open spec fn from_spec(kind: ErrorKind) -> LocaleError {
        LocaleError { kind, description: None }
    }
}

} // verus!
