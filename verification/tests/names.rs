use gir::nameutil::{is_empty_c_type, signal_to_snake, str_eq};

#[test]
fn signal_names_become_identifiers() {
    assert_eq!(signal_to_snake("value-changed"), "value_changed");
    assert_eq!(signal_to_snake("toggled"), "toggled");
    assert_eq!(signal_to_snake(""), "");
    assert_eq!(signal_to_snake("a-b-c"), "a_b_c");
}

#[test]
fn empty_c_types_are_detected() {
    assert!(is_empty_c_type(""));
    assert!(is_empty_c_type("void"));
    assert!(!is_empty_c_type("void*"));
    assert!(!is_empty_c_type("gboolean"));
}

#[test]
fn string_equality_is_character_wise() {
    assert!(str_eq("abc", "abc"));
    assert!(!str_eq("abc", "abd"));
    assert!(!str_eq("abc", "ab"));
    assert!(str_eq("", ""));
}
