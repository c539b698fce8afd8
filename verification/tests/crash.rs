use ruffle_android::crash::{crash_notice, panic_report, PanicLocation};

#[test]
fn report_with_a_location() {
    let report = panic_report(
        Some("main"),
        Some("index out of bounds"),
        None,
        Some(PanicLocation { file: "src/lib.rs", line: 1404 }),
        "   0: frame",
    );
    assert_eq!(
        report,
        "thread 'main' panicked at 'index out of bounds': src/lib.rs:1404\n   0: frame"
    );
}

#[test]
fn report_without_a_location() {
    let report = panic_report(Some("audio"), None, Some("lost device 3"), None, "");
    assert_eq!(report, "thread 'audio' panicked at 'lost device 3'\n");
}

#[test]
fn report_of_an_unknown_payload() {
    let report = panic_report(None, None, None, None, "bt");
    assert_eq!(report, "thread '<unnamed>' panicked at 'Box<Any>'\nbt");
}

#[test]
fn literal_message_comes_first() {
    let report = panic_report(None, Some("literal"), Some("formatted"), None, "");
    assert_eq!(report, "thread '<unnamed>' panicked at 'literal'\n");
}

#[test]
fn line_numbers_are_decimal() {
    for line in [0u32, 7, 9, 10, 19, 100, 123456, 999_999_999, u32::MAX] {
        let location = PanicLocation { file: "f", line };
        let report = panic_report(Some("t"), Some("m"), None, Some(location), "b");
        assert_eq!(report, format!("thread 't' panicked at 'm': f:{}\nb", line));
    }
}

#[test]
fn texts_of_any_script_are_kept() {
    let location = PanicLocation { file: "źródło.rs", line: 5 };
    let report = panic_report(Some("główny"), None, Some("błąd"), Some(location), "śl");
    assert_eq!(report, "thread 'główny' panicked at 'błąd': źródło.rs:5\nśl");
}

#[test]
fn pending_exception_keeps_the_crash_callback_quiet() {
    assert_eq!(crash_notice(true, "report".to_string()), None);
    assert_eq!(crash_notice(false, "report".to_string()), Some("report".to_string()));
}
