use webview_layer::error::Error;
use webview_layer::target::{check, same_text, Constraint, TargetMismatch};

#[test]
fn same_text_accepts_equal_texts() {
    assert!(same_text("linux", "linux"));
    assert!(same_text("", ""));
    assert!(same_text("größe", "größe"));
}

#[test]
fn same_text_rejects_other_lengths() {
    assert!(!same_text("linux", "linu"));
    assert!(!same_text("", "x"));
    assert!(!same_text("unix", "unixes"));
}

#[test]
fn same_text_rejects_a_difference_in_the_last_character() {
    assert!(!same_text("macos", "macoz"));
    assert!(!same_text("Linux", "linux"));
    assert!(!same_text("größe", "grösse"));
    assert!(!same_text("é", "e"));
}

#[test]
fn check_passes_without_restrictions() {
    assert!(check(None, None, "linux", "unix").is_ok());
    assert!(check(None, None, "", "").is_ok());
}

#[test]
fn check_passes_on_the_declared_target() {
    assert!(check(Some("linux"), None, "linux", "unix").is_ok());
    assert!(check(None, Some("unix"), "linux", "unix").is_ok());
    assert!(check(Some("windows"), Some("windows"), "windows", "windows").is_ok());
}

#[test]
fn check_reports_another_operating_system() {
    let mismatch = check(Some("windows"), None, "linux", "unix").unwrap_err();
    assert_eq!(mismatch.constraint, Constraint::Os);
    assert_eq!(mismatch.expected, "windows");
    assert_eq!(mismatch.actual, "linux");
}

#[test]
fn check_reports_another_family() {
    let mismatch = check(Some("linux"), Some("windows"), "linux", "unix").unwrap_err();
    assert_eq!(mismatch.constraint, Constraint::Family);
    assert_eq!(mismatch.expected, "windows");
    assert_eq!(mismatch.actual, "unix");
}

#[test]
fn check_reports_the_operating_system_before_the_family() {
    let mismatch = check(Some("macos"), Some("windows"), "linux", "unix").unwrap_err();
    assert_eq!(mismatch.constraint, Constraint::Os);
    assert_eq!(mismatch.expected, "macos");
    assert_eq!(mismatch.actual, "linux");
}

#[test]
fn mismatch_message_names_the_operating_system() {
    let mismatch = TargetMismatch {
        constraint: Constraint::Os,
        expected: "windows".to_string(),
        actual: "linux".to_string(),
    };
    assert_eq!(
        mismatch.message(),
        "Invalid target. Attempted to use binding valid only for `target_os = windows` on a build with `target_os = linux`"
    );
}

#[test]
fn mismatch_message_names_the_family() {
    let mismatch = check(None, Some("windows"), "linux", "unix").unwrap_err();
    assert_eq!(
        mismatch.message(),
        "Invalid target. Attempted to use binding valid only for `target_family = windows` on a build with `target_family = unix`"
    );
}

#[test]
fn error_from_words_keeps_the_words() {
    match Error::msg("engine refused") {
        Error::Msg(text) => assert_eq!(text, "engine refused"),
        Error::Io(_) => panic!("a described error is no I/O error"),
    }
    assert!(!Error::msg("engine refused").is_io());
    match Error::from("owned words".to_string()) {
        Error::Msg(text) => assert_eq!(text, "owned words"),
        Error::Io(_) => panic!("a described error is no I/O error"),
    }
}

#[test]
fn error_from_io_keeps_the_cause() {
    let cause = std::io::Error::new(std::io::ErrorKind::NotFound, "no engine library");
    let error = Error::from(cause);
    assert!(error.is_io());
    match error {
        Error::Io(cause) => {
            assert_eq!(cause.kind(), std::io::ErrorKind::NotFound);
            assert_eq!(format!("{}", cause), "no engine library");
        }
        Error::Msg(_) => panic!("an I/O error stays an I/O error"),
    }
}
