use utf8_locale::{ConsoleCodePages, set_console_utf8, utf8_supported_windows, Utf8Support};

#[test]
fn windows_mapping_table() {
    assert_eq!(utf8_supported_windows(65001), Utf8Support::UTF8);
    assert_eq!(utf8_supported_windows(20127), Utf8Support::ASCII);
    assert_eq!(utf8_supported_windows(1252), Utf8Support::Latin1);
    assert_eq!(utf8_supported_windows(0), Utf8Support::Unknown);
    assert_eq!(utf8_supported_windows(437), Utf8Support::Other);
    assert_eq!(utf8_supported_windows(9999), Utf8Support::Other);
}

#[test]
fn scoped_utf8_restores_original_pages() {
    let original = ConsoleCodePages { output: 437, input: 850 };
    let (next, handle) = set_console_utf8(&original, true).unwrap();
    assert_eq!(next, ConsoleCodePages { output: 65001, input: 65001 });
    // Releasing the handle puts the captured pages back, whatever the
    // console holds at release time.
    assert_eq!(handle.restore(&next), original);
    assert_eq!(handle.restore(&ConsoleCodePages { output: 1252, input: 1252 }), original);
}

#[test]
fn scoped_utf8_unavailable_reports_failure() {
    let original = ConsoleCodePages { output: 437, input: 850 };
    let r = set_console_utf8(&original, false);
    assert!(matches!(r, Err(_)));
}

#[test]
fn default_handle_restores_nothing() {
    let handle = utf8_locale::CodePageHandle::default();
    let current = ConsoleCodePages { output: 1252, input: 437 };
    assert_eq!(handle.restore(&current), current);
}
