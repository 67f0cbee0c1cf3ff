use winshaper::text::str_eq;

#[test]
fn str_eq_compares_character_by_character() {
    assert!(str_eq("", ""));
    assert!(str_eq("left", "left"));
    assert!(str_eq("größe", "größe"));
    assert!(!str_eq("left", "Left"));
    assert!(!str_eq("left", "left "));
    assert!(!str_eq("", " "));
}
