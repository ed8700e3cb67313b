use sdkman_core::text::{trim, trimmed_content};

#[test]
fn trim_removes_leading_and_trailing_blanks() {
    assert_eq!(trim("  17.0.1-tem \n"), "17.0.1-tem".to_string());
}

#[test]
fn trim_keeps_interior_blanks() {
    assert_eq!(trim("\ta b\r\n"), "a b".to_string());
}

#[test]
fn trim_of_blank_text_is_empty() {
    assert_eq!(trim(" \t\r\n"), String::new());
    assert_eq!(trim(""), String::new());
}

#[test]
fn should_read_content_from_file() {
    let expected_version = "5.0.0";
    let maybe_version = trimmed_content(expected_version);
    assert_eq!(maybe_version, Some(expected_version.to_string()));
}

#[test]
fn should_fail_reading_file_content_from_empty_file() {
    let maybe_version = trimmed_content("");
    assert_eq!(maybe_version, None);
}

#[test]
fn content_of_blanks_only_is_nothing() {
    assert_eq!(trimmed_content("  \n\t "), None);
}

#[test]
fn content_is_trimmed() {
    assert_eq!(trimmed_content(" 5.0.0\n"), Some("5.0.0".to_string()));
}
