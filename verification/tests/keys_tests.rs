use sokki_shortcuts::keys::string_to_code;
use sokki_shortcuts::keys::KeyCode;

#[test]
fn every_letter_translates_case_insensitively() {
    for c in 'a'..='z' {
        let lower = string_to_code(&c.to_string());
        let upper = string_to_code(&c.to_ascii_uppercase().to_string());
        assert!(lower.is_some());
        assert!(upper.is_some());
        assert_eq!(lower, upper);
    }
}

#[test]
fn every_digit_translates() {
    for c in '0'..='9' {
        assert!(string_to_code(&c.to_string()).is_some());
    }
}

#[test]
fn translation_is_repeatable() {
    for c in 'a'..='z' {
        let name = c.to_string();
        assert_eq!(string_to_code(&name), string_to_code(&name));
    }
}

#[test]
fn specific_codes() {
    assert_eq!(string_to_code("m"), Some(KeyCode::KeyM));
    assert_eq!(string_to_code("M"), Some(KeyCode::KeyM));
    assert_eq!(string_to_code("K"), Some(KeyCode::KeyK));
    assert_eq!(string_to_code("0"), Some(KeyCode::Digit0));
    assert_eq!(string_to_code("9"), Some(KeyCode::Digit9));
}

#[test]
fn unsupported_names_fail() {
    assert_eq!(string_to_code("$"), None);
    assert_eq!(string_to_code(""), None);
    assert_eq!(string_to_code(" "), None);
    assert_eq!(string_to_code("aa"), None);
    assert_eq!(string_to_code("F1"), None);
    assert_eq!(string_to_code("-"), None);
    assert_eq!(string_to_code("é"), None);
    assert_eq!(string_to_code("ß"), None);
}
