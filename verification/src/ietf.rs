//! The hyphenated form of a locale name, and the verified string operations
//! that bring a POSIX-style name `language_REGION[.CHARSET][@MODIFIER]` into it.

use vstd::prelude::*;

verus! {

/// Assumed of the standard library, not proved: `String::push` appends the
/// given character at the end of the string and leaves what was there as it
/// was.
pub assume_specification[ String::push ](s: &mut String, ch: char)
    ensures
        final(s)@ == old(s)@.push(ch),
;

/// Index of the first element of `s` that belongs to `stops`, or `s.len()` when
/// no element of `s` does.
pub open spec fn first_in<T>(s: Seq<T>, stops: Set<T>) -> int
    decreases s.len(),
{
    if s.len() == 0 || stops.contains(s[0]) {
        0
    } else {
        1 + first_in(s.drop_first(), stops)
    }
}

/// The characters that end the locale part of a raw value: what follows one of
/// them describes the character set.
pub open spec fn separators() -> Set<char> {
    set![' ', '.']
}

/// The character that introduces a modifier, as in `aa_ER@saaho`.
pub open spec fn modifier_marks() -> Set<char> {
    set!['@']
}

/// A raw value is recognized only if it carries a character-set suffix, set off
/// by a dot or by a space.
pub open spec fn has_separator(raw: Seq<char>) -> bool {
    raw.contains(' ') || raw.contains('.')
}

/// Everything before the first separator.
pub open spec fn language_part(raw: Seq<char>) -> Seq<char> {
    raw.take(first_in(raw, separators()))
}

/// The character that stands for `c` in a tag: a hyphen for an underscore, `c`
/// itself otherwise.
pub open spec fn hyphen_for(c: char) -> char {
    if c == '_' {
        '-'
    } else {
        c
    }
}

/// `s` with every underscore replaced by a hyphen.
pub open spec fn hyphenated(s: Seq<char>) -> Seq<char> {
    s.map_values(|c: char| hyphen_for(c))
}

/// Everything before the first `@`.
pub open spec fn without_modifier(s: Seq<char>) -> Seq<char> {
    s.take(first_in(s, modifier_marks()))
}

/// The tag that a raw value with a character-set suffix stands for.
pub open spec fn ietf_tag(raw: Seq<char>) -> Seq<char> {
    without_modifier(hyphenated(language_part(raw)))
}

/// The syntactic normal form: no underscore, no dot, no `@` and no space.
pub open spec fn is_ietf_tag(s: Seq<char>) -> bool {
    forall|i: int|
        0 <= i < s.len() ==> s[i] != '_' && s[i] != '.' && s[i] != '@' && s[i] != ' '
}

/// `first_in` stays within the sequence, skips only elements outside `stops`,
/// and lands on an element of `stops` unless it reaches the end.
pub proof fn lemma_first_in<T>(s: Seq<T>, stops: Set<T>)
    ensures
        0 <= first_in(s, stops) <= s.len(),
        forall|j: int| 0 <= j < first_in(s, stops) ==> !stops.contains(#[trigger] s[j]),
        first_in(s, stops) < s.len() ==> stops.contains(s[first_in(s, stops)]),
    decreases s.len(),
{
    if s.len() != 0 && !stops.contains(s[0]) {
        let rest = s.drop_first();
        lemma_first_in(rest, stops);
        assert forall|j: int| 0 <= j < first_in(s, stops) implies !stops.contains(
            #[trigger] s[j],
        ) by {
            if j > 0 {
                assert(s[j] == rest[j - 1]);
            }
        }
    }
}

/// Any index that is preceded only by elements outside `stops`, and that holds
/// an element of `stops` or is the end of `s`, is the one `first_in` gives.
pub proof fn lemma_first_in_is<T>(s: Seq<T>, stops: Set<T>, i: int)
    requires
        0 <= i <= s.len(),
        forall|j: int| 0 <= j < i ==> !stops.contains(#[trigger] s[j]),
        i < s.len() ==> stops.contains(s[i]),
    ensures
        first_in(s, stops) == i,
    decreases s.len(),
{
    if s.len() != 0 && i > 0 {
        let rest = s.drop_first();
        assert(!stops.contains(s[0]));
        assert forall|j: int| 0 <= j < i - 1 implies !stops.contains(#[trigger] rest[j]) by {
            assert(rest[j] == s[j + 1]);
        }
        lemma_first_in_is(rest, stops, i - 1);
    }
}

/// A sequence holds a dot or a space exactly if `first_in` stops on one before
/// the end.
pub proof fn lemma_has_separator(raw: Seq<char>)
    ensures
        has_separator(raw) <==> first_in(raw, separators()) < raw.len(),
{
    lemma_first_in(raw, separators());
    if has_separator(raw) {
        let i = choose|i: int| 0 <= i < raw.len() && (raw[i] == ' ' || raw[i] == '.');
        assert(separators().contains(raw[i]));
    }
}

/// A code without dot or space, followed by a separator and anything at all, is
/// the language part of the whole.
pub proof fn lemma_language_part_of(code: Seq<char>, sep: char, rest: Seq<char>)
    requires
        !has_separator(code),
        separators().contains(sep),
    ensures
        has_separator(code + seq![sep] + rest),
        language_part(code + seq![sep] + rest) == code,
{
    let raw = code + seq![sep] + rest;
    let at = code.len() as int;
    assert(raw[at] == sep);
    assert forall|j: int| 0 <= j < at implies !separators().contains(#[trigger] raw[j]) by {
        assert(raw[j] == code[j]);
        assert(code.contains(code[j]));
    }
    lemma_first_in_is(raw, separators(), at);
    assert(raw.take(at) =~= code);
}

/// Hyphenating a concatenation hyphenates its two halves.
pub proof fn lemma_hyphenated_concat(a: Seq<char>, b: Seq<char>)
    ensures
        hyphenated(a + b) == hyphenated(a) + hyphenated(b),
{
    assert(hyphenated(a + b) =~= hyphenated(a) + hyphenated(b));
}

/// Hyphenating changes nothing in a sequence without underscores.
pub proof fn lemma_hyphenated_plain(s: Seq<char>)
    requires
        !s.contains('_'),
    ensures
        hyphenated(s) == s,
{
    assert forall|i: int| 0 <= i < s.len() implies hyphenated(s)[i] == s[i] by {
        assert(s.contains(s[i]));
    }
    assert(hyphenated(s) =~= s);
}

/// A hyphenated sequence holds no underscore.
pub proof fn lemma_hyphenated_has_no_underscore(s: Seq<char>)
    ensures
        !hyphenated(s).contains('_'),
{
    if hyphenated(s).contains('_') {
        let i = choose|i: int| 0 <= i < hyphenated(s).len() && hyphenated(s)[i] == '_';
        assert(hyphenated(s)[i] == hyphen_for(s[i]));
    }
}

/// A tag without `@` is kept whole, and a modifier appended to it is dropped
/// together with its `@`.
pub proof fn lemma_without_modifier_of(tag: Seq<char>, modifier: Seq<char>)
    requires
        !tag.contains('@'),
    ensures
        without_modifier(tag) == tag,
        without_modifier(tag + seq!['@'] + modifier) == tag,
{
    let at = tag.len() as int;
    let marked = tag + seq!['@'] + modifier;
    assert forall|j: int| 0 <= j < at implies !modifier_marks().contains(#[trigger] tag[j]) by {
        assert(tag.contains(tag[j]));
    }
    lemma_first_in_is(tag, modifier_marks(), at);
    assert(tag.take(at) =~= tag);
    assert(marked[at] == '@');
    assert forall|j: int| 0 <= j < at implies !modifier_marks().contains(#[trigger] marked[j]) by {
        assert(marked[j] == tag[j]);
    }
    lemma_first_in_is(marked, modifier_marks(), at);
    assert(marked.take(at) =~= tag);
}

/// Whatever the raw value, the tag computed from it is in normal form.
pub proof fn lemma_ietf_tag_is_normal(raw: Seq<char>)
    ensures
        is_ietf_tag(ietf_tag(raw)),
{
    let part = language_part(raw);
    let hyphens = hyphenated(part);
    let tag = without_modifier(hyphens);
    lemma_first_in(raw, separators());
    lemma_first_in(hyphens, modifier_marks());
    assert forall|i: int| 0 <= i < tag.len() implies tag[i] != '_' && tag[i] != '.' && tag[i]
        != '@' && tag[i] != ' ' by {
        assert(tag[i] == hyphens[i]);
        assert(hyphens[i] == hyphen_for(part[i]));
        assert(part[i] == raw[i]);
        assert(!separators().contains(raw[i]));
        assert(!modifier_marks().contains(hyphens[i]));
    }
}

/// Copies the characters of `s` that come before the first occurrence of `a` or
/// of `b`, and tells whether one of the two occurs at all.
fn copy_until(s: &str, a: char, b: char) -> (res: (String, bool))
    ensures
        res.0@ == s@.take(first_in(s@, set![a, b])),
        res.1 == (first_in(s@, set![a, b]) < s@.len()),
{
    let ghost stops = set![a, b];
    let mut head = String::new();
    for c in it: s.chars()
        invariant
            it.seq() == s@,
            stops == set![a, b],
            head@ == s@.take(it.index()),
            forall|j: int| 0 <= j < it.index() ==> !stops.contains(#[trigger] s@[j]),
    {
        if c == a || c == b {
            proof {
                lemma_first_in_is(s@, stops, it.index());
            }
            return (head, true);
        }
        assert(s@.take(it.index() + 1) =~= s@.take(it.index()).push(c));
        head.push(c);
    }
    proof {
        lemma_first_in_is(s@, stops, s@.len() as int);
    }
    (head, false)
}

/// The part of `raw` before its first dot or space, or `None` when `raw` holds
/// neither.
pub fn take_language_part(raw: &str) -> (res: Option<String>)
    ensures
        match res {
            Some(part) => has_separator(raw@) && part@ == language_part(raw@),
            None => !has_separator(raw@),
        },
{
    let (head, found) = copy_until(raw, ' ', '.');
    proof {
        lemma_has_separator(raw@);
    }
    if found {
        Some(head)
    } else {
        None
    }
}

/// A copy of `s` in which a hyphen stands in place of every underscore.
pub fn hyphenate(s: &str) -> (res: String)
    ensures
        res@ == hyphenated(s@),
{
    let mut out = String::new();
    for c in it: s.chars()
        invariant
            it.seq() == s@,
            out@ == hyphenated(s@.take(it.index())),
    {
        assert(s@.take(it.index() + 1) =~= s@.take(it.index()).push(c));
        out.push(
            if c == '_' {
                '-'
            } else {
                c
            },
        );
    }
    assert(s@.take(s@.len() as int) =~= s@);
    out
}

/// The part of `s` before its first `@`; all of `s` when it holds none.
pub fn strip_modifier(s: &str) -> (res: String)
    ensures
        res@ == without_modifier(s@),
{
    let (head, _) = copy_until(s, '@', '@');
    assert(set!['@', '@'] =~= modifier_marks());
    head
}

/// Brings a raw POSIX locale value into tag form: cuts it at the first dot or
/// space, writes hyphens for underscores, and drops a modifier. A value with
/// neither dot nor space is not recognized.
pub fn normalize(raw: &str) -> (res: Option<String>)
    ensures
        match res {
            Some(tag) => has_separator(raw@) && tag@ == ietf_tag(raw@),
            None => !has_separator(raw@),
        },
{
    match take_language_part(raw) {
        Some(part) => {
            let hyphens = hyphenate(part.as_str());
            Some(strip_modifier(hyphens.as_str()))
        },
        None => None,
    }
}

} // verus!
