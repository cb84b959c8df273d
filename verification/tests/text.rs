use connector_rpc::text::{capitalize_first, str_eq};

#[test]
fn capitalizes_the_first_character_only() {
    assert_eq!(capitalize_first("add"), "Add");
    assert_eq!(capitalize_first("math"), "Math");
    assert_eq!(capitalize_first("x9y"), "X9y");
}

#[test]
fn empty_string_stays_empty() {
    assert_eq!(capitalize_first(""), "");
}

#[test]
fn already_capitalized_input_is_unchanged() {
    assert_eq!(capitalize_first("Add"), "Add");
    assert_eq!(capitalize_first("9lives"), "9lives");
}

#[test]
fn a_character_may_map_to_several() {
    assert_eq!(capitalize_first("ße"), "SSe");
}

#[test]
fn str_eq_compares_characters() {
    assert!(str_eq("add", "add"));
    assert!(!str_eq("add", "sub"));
    assert!(!str_eq("add", "Add"));
    assert!(str_eq("", ""));
}
