use os_locale::error::ErrorKind;
use os_locale::ietf::{hyphenate, normalize, strip_modifier, take_language_part};
use os_locale::unix::normalize_to_ietf;

fn rejected(raw: &str) -> String {
    let error = normalize_to_ietf(raw).unwrap_err();
    assert_eq!(error.description, None);
    match error.kind() {
        ErrorKind::NotIetfCompliant(kept) => kept,
        ErrorKind::LookupFailed => panic!("{} was reported as a failed lookup", raw),
    }
}

#[test]
fn dot_then_space_form_gives_language_and_region() {
    assert_eq!(normalize_to_ietf("aa_DJ.UTF-8 UTF-8").unwrap(), "aa-DJ");
    assert_eq!(normalize_to_ietf("zh_CN.GB18030 GB18030").unwrap(), "zh-CN");
    assert_eq!(normalize_to_ietf("sr_RS.a@b_c d.e f").unwrap(), "sr-RS");
}

#[test]
fn space_form_gives_language_and_region() {
    assert_eq!(normalize_to_ietf("aa_DJ ISO-8859-1").unwrap(), "aa-DJ");
    assert_eq!(normalize_to_ietf("ar_QA ISO-8859-6").unwrap(), "ar-QA");
    assert_eq!(normalize_to_ietf("pt_BR ISO.8859.1").unwrap(), "pt-BR");
}

#[test]
fn modifier_is_dropped() {
    assert_eq!(normalize_to_ietf("aa_ER@saaho UTF-8").unwrap(), "aa-ER");
    assert_eq!(normalize_to_ietf("ca_ES@valencia.UTF-8").unwrap(), "ca-ES");
    assert_eq!(normalize_to_ietf("sr_RS@latin_x@y UTF-8").unwrap(), "sr-RS");
}

#[test]
fn modifier_after_the_separator_is_never_seen() {
    assert_eq!(normalize_to_ietf("de_DE.UTF-8@euro").unwrap(), "de-DE");
}

#[test]
fn value_without_separator_is_handed_back() {
    assert_eq!(rejected("en"), "en");
    assert_eq!(rejected("aa_DJ"), "aa_DJ");
    assert_eq!(rejected("aa_ER@saaho"), "aa_ER@saaho");
    assert_eq!(rejected("C"), "C");
    assert_eq!(rejected(""), "");
}

#[test]
fn second_pass_rejects_the_tag() {
    let tag = normalize_to_ietf("en_GB.UTF-8 UTF-8").unwrap();
    assert_eq!(tag, "en-GB");
    assert_eq!(rejected(&tag), "en-GB");
}

#[test]
fn every_underscore_becomes_a_hyphen() {
    assert_eq!(normalize_to_ietf("zh_Hant_TW.Big5").unwrap(), "zh-Hant-TW");
    assert_eq!(normalize_to_ietf("__.x").unwrap(), "--");
}

#[test]
fn value_may_lack_a_region() {
    assert_eq!(normalize_to_ietf("C.UTF-8").unwrap(), "C");
    assert_eq!(normalize_to_ietf("fr UTF-8").unwrap(), "fr");
}

#[test]
fn leading_separator_or_modifier_gives_empty_tag() {
    assert_eq!(normalize_to_ietf(".UTF-8").unwrap(), "");
    assert_eq!(normalize_to_ietf(" ").unwrap(), "");
    assert_eq!(normalize_to_ietf("@euro.UTF-8").unwrap(), "");
}

#[test]
fn characters_outside_ascii_are_kept() {
    assert_eq!(normalize_to_ietf("日本_語.UTF-8").unwrap(), "日本-語");
    assert_eq!(rejected("日本_語"), "日本_語");
}

#[test]
fn tag_is_free_of_reserved_characters() {
    for raw in ["a_b@c_d.e f", "x.y", "_@_ _", "a b.c", "a.b c@d"] {
        let tag = normalize_to_ietf(raw).unwrap();
        assert!(!tag.contains(['_', '.', '@', ' ']), "{} gave {}", raw, tag);
    }
}

#[test]
fn language_part_ends_at_first_dot_or_space() {
    assert_eq!(take_language_part("aa_DJ.UTF-8 UTF-8").unwrap(), "aa_DJ");
    assert_eq!(take_language_part("aa_DJ UTF-8.x").unwrap(), "aa_DJ");
    assert_eq!(take_language_part("aa_ER@saaho UTF-8").unwrap(), "aa_ER@saaho");
    assert_eq!(take_language_part("aa_DJ"), None);
}

#[test]
fn hyphenate_replaces_underscores_only() {
    assert_eq!(hyphenate("a_b"), "a-b");
    assert_eq!(hyphenate("en_US@x_y.z w"), "en-US@x-y.z w");
    assert_eq!(hyphenate("plain"), "plain");
    assert_eq!(hyphenate(""), "");
}

#[test]
fn strip_modifier_cuts_at_first_at_sign() {
    assert_eq!(strip_modifier("aa-ER@saaho"), "aa-ER");
    assert_eq!(strip_modifier("aa-ER@a@b"), "aa-ER");
    assert_eq!(strip_modifier("aa-ER"), "aa-ER");
    assert_eq!(strip_modifier("@"), "");
}

#[test]
fn normalize_tells_recognized_from_unrecognized() {
    assert_eq!(normalize("ko_KR.EUC-KR EUC-KR").unwrap(), "ko-KR");
    assert_eq!(normalize("ko_KR"), None);
}
