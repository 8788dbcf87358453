use os_locale::platform::format_raw_user_lang;
use os_locale::unix::normalize_to_ietf;

#[test]
fn mod_test_linux_locales() {
    // Test a few locales and if they parse correctly
    assert_eq!(format_raw_user_lang("aa_DJ.UTF-8 UTF-8".to_string()).unwrap(), "aa-DJ");
    assert_eq!(format_raw_user_lang("aa_DJ ISO-8859-1".to_string()).unwrap(), "aa-DJ");
    assert_eq!(format_raw_user_lang("aa_ER@saaho UTF-8".to_string()).unwrap(), "aa-ER");
    assert_eq!(format_raw_user_lang("ar_QA ISO-8859-6".to_string()).unwrap(), "ar-QA");
    assert_eq!(format_raw_user_lang("en_GB.UTF-8 UTF-8".to_string()).unwrap(), "en-GB");
    assert_eq!(format_raw_user_lang("ko_KR.EUC-KR EUC-KR".to_string()).unwrap(), "ko-KR");
    assert_eq!(format_raw_user_lang("zh_CN.GB18030 GB18030".to_string()).unwrap(), "zh-CN");
}

#[test]
fn unix_test_linux_locales() {
    // Test a few locales and if they parse correctly
    assert_eq!(normalize_to_ietf("aa_DJ.UTF-8 UTF-8").unwrap(), "aa-DJ");
    assert_eq!(normalize_to_ietf("aa_DJ ISO-8859-1").unwrap(), "aa-DJ");
    assert_eq!(normalize_to_ietf("aa_ER@saaho UTF-8").unwrap(), "aa-ER");
    assert_eq!(normalize_to_ietf("ar_QA ISO-8859-6").unwrap(), "ar-QA");
    assert_eq!(normalize_to_ietf("en_GB.UTF-8 UTF-8").unwrap(), "en-GB");
    assert_eq!(normalize_to_ietf("ko_KR.EUC-KR EUC-KR").unwrap(), "ko-KR");
    assert_eq!(normalize_to_ietf("zh_CN.GB18030 GB18030").unwrap(), "zh-CN");
}
