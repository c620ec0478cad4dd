use canvas_bridge::text::str_eq;

#[test]
fn equal_strings_compare_equal() {
    assert!(str_eq("", ""));
    assert!(str_eq("KeyA", "KeyA"));
    assert!(str_eq("a b c", "a b c"));
}

#[test]
fn different_strings_compare_unequal() {
    assert!(!str_eq("KeyA", "KeyB"));
    assert!(!str_eq("Key", "KeyA"));
    assert!(!str_eq("KeyA", ""));
    assert!(!str_eq("keya", "KeyA"));
}

#[test]
fn comparison_handles_multibyte_characters() {
    assert!(str_eq("touché", "touché"));
    assert!(!str_eq("touché", "touche"));
}
