use utf8_locale::{LocaleQuery, LocaleSignal, Utf8Support, get_locale_signal, utf8_supported};

fn b(s: &str) -> Vec<u8> {
    s.as_bytes().to_vec()
}

fn posix(lc_all: &str, lc_ctype: &str, lang: &str) -> LocaleQuery {
    LocaleQuery::Posix { lc_all: b(lc_all), lc_ctype: b(lc_ctype), lang: b(lang) }
}

#[test]
fn signal_of_empty_value() {
    assert_eq!(get_locale_signal(&b("")), LocaleSignal::Unknown);
}

#[test]
fn signal_of_posix_names() {
    assert_eq!(get_locale_signal(&b("C")), LocaleSignal::ASCII);
    assert_eq!(get_locale_signal(&b("c")), LocaleSignal::ASCII);
    assert_eq!(get_locale_signal(&b("POSIX")), LocaleSignal::ASCII);
    assert_eq!(get_locale_signal(&b("posix")), LocaleSignal::ASCII);
    assert_eq!(get_locale_signal(&b("Posix")), LocaleSignal::ASCII);
}

#[test]
fn signal_of_utf8_values() {
    assert_eq!(get_locale_signal(&b("en_US.UTF-8")), LocaleSignal::UTF8);
    assert_eq!(get_locale_signal(&b("de_DE.utf8")), LocaleSignal::UTF8);
    assert_eq!(get_locale_signal(&b("UTF8")), LocaleSignal::UTF8);
}

#[test]
fn signal_of_other_values() {
    assert_eq!(get_locale_signal(&b("en_US.ISO8859-1")), LocaleSignal::NonUTF8);
    assert_eq!(get_locale_signal(&b("garbage")), LocaleSignal::NonUTF8);
    assert_eq!(get_locale_signal(&b("C.UTF-16")), LocaleSignal::NonUTF8);
}

#[test]
fn detect_lc_all_utf8() {
    assert_eq!(utf8_supported(&posix("en_US.UTF-8", "", "")), Utf8Support::UTF8);
}

#[test]
fn detect_lang_c() {
    assert_eq!(utf8_supported(&posix("", "", "C")), Utf8Support::ASCII);
}

#[test]
fn detect_all_unset() {
    assert_eq!(utf8_supported(&posix("", "", "")), Utf8Support::Unknown);
}

#[test]
fn detect_garbage_only() {
    assert_eq!(utf8_supported(&posix("garbage", "", "")), Utf8Support::Other);
    assert_eq!(utf8_supported(&posix("garbage", "", "more.garbage")), Utf8Support::Other);
}

#[test]
fn detect_lower_priority_decisive_signal_overrides_garbage() {
    // A NonUTF8 signal does not short-circuit: a decisive signal at a
    // lower-priority variable still wins over higher-priority garbage.
    assert_eq!(utf8_supported(&posix("garbage", "", "en_US.UTF-8")), Utf8Support::UTF8);
    assert_eq!(utf8_supported(&posix("garbage", "C", "")), Utf8Support::ASCII);
}

#[test]
fn detect_priority_order() {
    // The higher-priority variable decides when both are decisive.
    assert_eq!(utf8_supported(&posix("C", "", "en_US.UTF-8")), Utf8Support::ASCII);
    assert_eq!(utf8_supported(&posix("en_US.UTF-8", "C", "")), Utf8Support::UTF8);
    assert_eq!(utf8_supported(&posix("", "en_US.UTF-8", "C")), Utf8Support::UTF8);
}

#[test]
fn detect_windows_code_pages() {
    assert_eq!(utf8_supported(&LocaleQuery::Windows { code_page: 65001 }), Utf8Support::UTF8);
    assert_eq!(utf8_supported(&LocaleQuery::Windows { code_page: 20127 }), Utf8Support::ASCII);
    assert_eq!(utf8_supported(&LocaleQuery::Windows { code_page: 1252 }), Utf8Support::Latin1);
    assert_eq!(utf8_supported(&LocaleQuery::Windows { code_page: 0 }), Utf8Support::Unknown);
    assert_eq!(utf8_supported(&LocaleQuery::Windows { code_page: 9999 }), Utf8Support::Other);
}

#[test]
fn detect_windows_oem_page_is_other() {
    assert_eq!(utf8_supported(&LocaleQuery::Windows { code_page: 437 }), Utf8Support::Other);
}

#[test]
fn default_support_is_unknown() {
    assert_eq!(Utf8Support::default(), Utf8Support::Unknown);
}
