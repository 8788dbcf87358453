//! Windows: the locale is the name that the user-default-locale-name query
//! writes, as UTF-16 and with a terminating zero, into a buffer of the caller.

use std::string::FromUtf16Error;
use vstd::prelude::*;
use crate::error::{outcome, ErrorKind, LocaleError, LocaleErrorView};
use crate::ietf::{first_in, lemma_first_in_is};
use crate::LocaleProvider;

verus! {

/// The largest number of UTF-16 units, the terminating zero included, that a
/// locale name takes. The buffer handed to the query has this length.
pub const LOCALE_NAME_MAX_LENGTH: usize = 85;

/// The error type of `String::from_utf16` in the standard library. It is
/// carried through; nothing is read from it.
#[verifier::external_type_specification]
#[verifier::external_body]
pub struct ExFromUtf16Error(FromUtf16Error);

/// The text that a sequence of UTF-16 units encodes, or `None` where the
/// sequence is not well-formed UTF-16.
pub uninterp spec fn utf16_text(units: Seq<u16>) -> Option<Seq<char>>;

/// Assumed of the standard library, not proved: `String::from_utf16` decodes
/// its argument as UTF-16, fails if and only if the argument holds invalid
/// data, and gives the same result for the same units. `utf16_text` is the
/// name of that result; what it is on given units is nowhere stated.
pub assume_specification[ String::from_utf16 ](v: &[u16]) -> (res: Result<String, FromUtf16Error>)
    ensures
        match res {
            Ok(text) => utf16_text(v@) == Some(text@),
            Err(_) => utf16_text(v@) is None,
        },
;

/// The unit that ends a name.
pub open spec fn terminators() -> Set<u16> {
    set![0u16]
}

/// The units of the name that the query left in `buffer`, given the count
/// `written` that it returned. The count includes the terminating zero, so a
/// well-formed answer has a positive count within the buffer and a zero among
/// the units counted; the name is what precedes the first zero. Nothing beyond
/// the count is looked at.
pub open spec fn written_name(buffer: Seq<u16>, written: int) -> Option<Seq<u16>> {
    if 0 < written <= buffer.len() {
        let filled = buffer.take(written);
        let end = first_in(filled, terminators());
        if end < written {
            Some(filled.take(end))
        } else {
            None
        }
    } else {
        None
    }
}

/// The locale that the query's answer stands for: the name it wrote, decoded,
/// and a failed lookup where the count is zero, the answer malformed or the
/// name not UTF-16.
pub open spec fn windows_locale(buffer: Seq<u16>, written: int) -> Result<
    Seq<char>,
    LocaleErrorView,
> {
    match written_name(buffer, written) {
        Some(units) => match utf16_text(units) {
            Some(text) => Ok(text),
            None => Err(LocaleErrorView::lookup_failed(None)),
        },
        None => Err(LocaleErrorView::lookup_failed(None)),
    }
}

/// A zeroed buffer of the length that the query expects.
pub fn name_buffer() -> (buffer: Vec<u16>)
    ensures
        buffer@.len() == LOCALE_NAME_MAX_LENGTH,
        forall|i: int| 0 <= i < buffer@.len() ==> buffer@[i] == 0,
{
    let mut buffer: Vec<u16> = Vec::new();
    while buffer.len() < LOCALE_NAME_MAX_LENGTH
        invariant
            buffer@.len() <= LOCALE_NAME_MAX_LENGTH,
            forall|i: int| 0 <= i < buffer@.len() ==> buffer@[i] == 0,
        decreases LOCALE_NAME_MAX_LENGTH - buffer@.len(),
    {
        buffer.push(0);
    }
    buffer
}

/// Finds the name in the buffer that the query filled: the units before the
/// first zero among the `written` first ones.
pub fn find_written_name(buffer: &[u16], written: i32) -> (name: Option<&[u16]>)
    ensures
        match name {
            Some(units) => written_name(buffer@, written as int) == Some(units@),
            None => written_name(buffer@, written as int) is None,
        },
{
    if written <= 0 {
        return None;
    }
    let count = written as usize;
    if count > buffer.len() {
        return None;
    }
    let ghost filled = buffer@.take(count as int);
    let mut end: usize = 0;
    while end < count
        invariant
            end <= count <= buffer@.len(),
            count == written,
            filled == buffer@.take(count as int),
            forall|j: int| 0 <= j < end ==> !terminators().contains(#[trigger] filled[j]),
        decreases count - end,
    {
        if buffer[end] == 0 {
            let name = &buffer[0..end];
            proof {
                assert(filled[end as int] == buffer@[end as int]);
                lemma_first_in_is(filled, terminators(), end as int);
                assert(name@ =~= filled.take(end as int));
            }
            return Some(name);
        }
        end = end + 1;
    }
    proof {
        lemma_first_in_is(filled, terminators(), count as int);
    }
    None
}

/// Turns the outcome of decoding the name into the current locale: the decoded
/// text as it is, and a failed lookup where the name was not UTF-16.
pub fn decoded_locale(decoded: Result<String, FromUtf16Error>) -> (res: Result<String, LocaleError>)
    ensures
        match decoded {
            Ok(text) => res == Ok::<String, LocaleError>(text),
            Err(_) => outcome(res) == Err::<Seq<char>, LocaleErrorView>(
                LocaleErrorView::lookup_failed(None),
            ),
        },
{
    match decoded {
        Ok(text) => Ok(text),
        Err(_) => Err(LocaleError::from(ErrorKind::LookupFailed)),
    }
}

/// Turns the answer of the user-default-locale-name query into the current
/// locale. `buffer` is the buffer that was handed to the query and `written`
/// the count that the query returned.
pub fn current_locale(buffer: &[u16], written: i32) -> (res: Result<String, LocaleError>)
    ensures
        outcome(res) == windows_locale(buffer@, written as int),
        written == 0 ==> outcome(res) == Err::<Seq<char>, LocaleErrorView>(
            LocaleErrorView::lookup_failed(None),
        ),
{
    match find_written_name(buffer, written) {
        Some(units) => decoded_locale(String::from_utf16(units)),
        None => Err(LocaleError::from(ErrorKind::LookupFailed)),
    }
}

/// Windows. Its answer is the buffer that was handed to the
/// user-default-locale-name query, and the count that the query returned.
pub struct Windows;

impl LocaleProvider for Windows {
    type Answer = (Vec<u16>, i32);

    open spec fn locale_of(answer: (Vec<u16>, i32)) -> Result<Seq<char>, LocaleErrorView> {
        windows_locale(answer.0@, answer.1 as int)
    }

    fn locale(answer: (Vec<u16>, i32)) -> (res: Result<String, LocaleError>) {
        current_locale(answer.0.as_slice(), answer.1)
    }
}

/// The result depends on the units that the query reported written and on no
/// other: two buffers that agree on them give the same locale.
pub proof fn lemma_reads_written_units_only(first: Seq<u16>, second: Seq<u16>, written: int)
    requires
        0 <= written <= first.len(),
        written <= second.len(),
        first.take(written) == second.take(written),
    ensures
        windows_locale(first, written) == windows_locale(second, written),
{
}

} // verus!
