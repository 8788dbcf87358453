//! The POSIX family: the locale is the value of the `LANG` environment variable.

use vstd::prelude::*;
use vstd::string::StrSliceExecFns;
use crate::error::{outcome, reading, ErrorKind, LocaleError, LocaleErrorView};
use crate::ietf::{
    has_separator, hyphenated, ietf_tag, is_ietf_tag, lemma_hyphenated_concat,
    lemma_hyphenated_plain, lemma_ietf_tag_is_normal, lemma_language_part_of,
    lemma_without_modifier_of, normalize, separators,
};
use crate::LocaleProvider;

verus! {

/// What a raw locale value normalizes to: its tag where it carries a
/// character-set suffix, and otherwise the error that hands the value back.
pub open spec fn normalized(raw: Seq<char>) -> Result<Seq<char>, LocaleErrorView> {
    if has_separator(raw) {
        Ok(ietf_tag(raw))
    } else {
        Err(LocaleErrorView::not_ietf_compliant(raw))
    }
}

/// The locale that the outcome of reading `LANG` stands for. `C`, the locale
/// of a process that has set none, stands for U.S. English and is never
/// parsed; any other value is normalized; a variable that could not be read is
/// a failed lookup, described by what the system said.
pub open spec fn posix_locale(lang: Result<Seq<char>, Seq<char>>) -> Result<
    Seq<char>,
    LocaleErrorView,
> {
    match lang {
        Ok(raw) => if raw == "C"@ {
            Ok("en-US"@)
        } else {
            normalized(raw)
        },
        Err(reason) => Err(LocaleErrorView::lookup_failed(Some(reason))),
    }
}

/// Tells whether `raw` is exactly `C`.
pub fn is_unset_locale(raw: &str) -> (unset: bool)
    ensures
        unset == (raw@ == "C"@),
{
    proof {
        reveal_strlit("C");
    }
    let unset = raw.unicode_len() == 1 && raw.get_char(0) == 'C';
    assert(unset ==> raw@ =~= "C"@);
    unset
}

/// Normalizes a unix locale value to an ietf compliant language code.
pub fn normalize_to_ietf(raw: &str) -> (res: Result<String, LocaleError>)
    ensures
        outcome(res) == normalized(raw@),
        res matches Ok(tag) ==> is_ietf_tag(tag@),
{
    proof {
        lemma_ietf_tag_is_normal(raw@);
    }
    match normalize(raw) {
        Some(tag) => Ok(tag),
        None => Err(LocaleError::from(ErrorKind::NotIetfCompliant(raw.to_owned()))),
    }
}

/// Turns the outcome of reading `LANG` into the current locale. `lang` is the
/// value of the variable, or what the system said when it could not be read.
pub fn current_locale(lang: Result<String, String>) -> (res: Result<String, LocaleError>)
    ensures
        outcome(res) == posix_locale(reading(lang)),
        res matches Ok(tag) ==> is_ietf_tag(tag@),
{
    proof {
        reveal_strlit("en-US");
    }
    match lang {
        Ok(raw) => {
            if is_unset_locale(raw.as_str()) {
                Ok("en-US".to_owned())
            } else {
                normalize_to_ietf(raw.as_str())
            }
        },
        Err(reason) => Err(LocaleError { kind: ErrorKind::LookupFailed, description: Some(reason) }),
    }
}

/// The POSIX family. Its answer is the outcome of reading `LANG`: the value of
/// the variable, or what the system said when it could not be read.
pub struct Posix;

impl LocaleProvider for Posix {
    type Answer = Result<String, String>;

    open spec fn locale_of(answer: Result<String, String>) -> Result<Seq<char>, LocaleErrorView> {
        posix_locale(reading(answer))
    }

    fn locale(answer: Result<String, String>) -> (res: Result<String, LocaleError>)
        ensures
            res matches Ok(tag) ==> is_ietf_tag(tag@),
    {
        current_locale(answer)
    }
}

/// A language and a region in normal form, joined by an underscore, hold no
/// separator; hyphenated, they are joined by a hyphen and hold no `@`.
proof fn lemma_language_and_region(lang: Seq<char>, region: Seq<char>)
    requires
        is_ietf_tag(lang),
        is_ietf_tag(region),
    ensures
        !has_separator(lang + seq!['_'] + region),
        hyphenated(lang + seq!['_'] + region) == lang + seq!['-'] + region,
        !(lang + seq!['-'] + region).contains('@'),
{
    let code = lang + seq!['_'] + region;
    let tag = lang + seq!['-'] + region;
    assert forall|i: int| 0 <= i < code.len() implies code[i] != ' ' && code[i] != '.' by {
        if i < lang.len() {
            assert(code[i] == lang[i]);
        } else if i > lang.len() {
            assert(code[i] == region[i - lang.len() - 1]);
        }
    }
    assert forall|i: int| 0 <= i < tag.len() implies tag[i] != '@' by {
        if i < lang.len() {
            assert(tag[i] == lang[i]);
        } else if i > lang.len() {
            assert(tag[i] == region[i - lang.len() - 1]);
        }
    }
    assert(hyphenated(code) == tag) by {
        lemma_hyphenated_concat(lang + seq!['_'], region);
        lemma_hyphenated_concat(lang, seq!['_']);
        lemma_hyphenated_plain(lang);
        lemma_hyphenated_plain(region);
        assert(hyphenated(seq!['_']) =~= seq!['-']);
    }
}

/// A value made of a language, an underscore, a region, one separator and
/// anything at all normalizes to the language, a hyphen and the region.
pub proof fn lemma_suffix_is_dropped(
    lang: Seq<char>,
    region: Seq<char>,
    sep: char,
    rest: Seq<char>,
)
    requires
        is_ietf_tag(lang),
        is_ietf_tag(region),
        separators().contains(sep),
    ensures
        normalized(lang + seq!['_'] + region + seq![sep] + rest) == Ok::<
            Seq<char>,
            LocaleErrorView,
        >(lang + seq!['-'] + region),
{
    lemma_language_and_region(lang, region);
    lemma_language_part_of(lang + seq!['_'] + region, sep, rest);
    lemma_without_modifier_of(lang + seq!['-'] + region, Seq::empty());
}

/// A value of the form `<lang>_<REGION>.<CHARSET> <CHARSET>` normalizes to
/// `<lang>-<REGION>`, whatever the two character-set fields hold.
pub proof fn lemma_dot_then_space_form(
    lang: Seq<char>,
    region: Seq<char>,
    charset: Seq<char>,
    charset_name: Seq<char>,
)
    requires
        is_ietf_tag(lang),
        is_ietf_tag(region),
    ensures
        normalized(
            lang + seq!['_'] + region + seq!['.'] + charset + seq![' '] + charset_name,
        ) == Ok::<Seq<char>, LocaleErrorView>(lang + seq!['-'] + region),
{
    let code = lang + seq!['_'] + region;
    let rest = charset + seq![' '] + charset_name;
    assert(code + seq!['.'] + charset + seq![' '] + charset_name =~= code + seq!['.'] + rest);
    lemma_suffix_is_dropped(lang, region, '.', rest);
}

/// A value of the form `<lang>_<REGION> <CHARSET>`, where a space comes before
/// any dot, normalizes to `<lang>-<REGION>`.
pub proof fn lemma_space_form(lang: Seq<char>, region: Seq<char>, charset: Seq<char>)
    requires
        is_ietf_tag(lang),
        is_ietf_tag(region),
    ensures
        normalized(lang + seq!['_'] + region + seq![' '] + charset) == Ok::<
            Seq<char>,
            LocaleErrorView,
        >(lang + seq!['-'] + region),
{
    lemma_suffix_is_dropped(lang, region, ' ', charset);
}

/// A modifier that follows the region, introduced by `@` and running up to the
/// separator, leaves no trace in the result.
pub proof fn lemma_modifier_is_dropped(
    lang: Seq<char>,
    region: Seq<char>,
    modifier: Seq<char>,
    sep: char,
    rest: Seq<char>,
)
    requires
        is_ietf_tag(lang),
        is_ietf_tag(region),
        !has_separator(modifier),
        separators().contains(sep),
    ensures
        normalized(
            lang + seq!['_'] + region + seq!['@'] + modifier + seq![sep] + rest,
        ) == Ok::<Seq<char>, LocaleErrorView>(lang + seq!['-'] + region),
{
    let code = lang + seq!['_'] + region;
    let tag = lang + seq!['-'] + region;
    let marked = code + seq!['@'] + modifier;
    lemma_language_and_region(lang, region);
    assert forall|i: int| 0 <= i < marked.len() implies marked[i] != ' ' && marked[i] != '.' by {
        if i < code.len() {
            assert(marked[i] == code[i]);
            assert(code.contains(code[i]));
        } else if i > code.len() {
            assert(marked[i] == modifier[i - code.len() - 1]);
            assert(modifier.contains(modifier[i - code.len() - 1]));
        }
    }
    lemma_language_part_of(marked, sep, rest);
    assert(hyphenated(marked) == tag + seq!['@'] + hyphenated(modifier)) by {
        lemma_hyphenated_concat(code + seq!['@'], modifier);
        lemma_hyphenated_concat(code, seq!['@']);
        assert(hyphenated(seq!['@']) =~= seq!['@']);
    }
    lemma_without_modifier_of(tag, hyphenated(modifier));
}

/// The normalizer is not idempotent. It takes a character-set suffix for
/// granted, and a tag that it produced has none: given its own output, it
/// hands the tag back as unrecognized.
pub proof fn lemma_second_pass_is_rejected(raw: Seq<char>)
    ensures
        normalized(ietf_tag(raw)) == Err::<Seq<char>, LocaleErrorView>(
            LocaleErrorView::not_ietf_compliant(ietf_tag(raw)),
        ),
{
    let tag = ietf_tag(raw);
    lemma_ietf_tag_is_normal(raw);
    if has_separator(tag) {
        let i = choose|i: int| 0 <= i < tag.len() && (tag[i] == ' ' || tag[i] == '.');
    }
}

} // verus!
