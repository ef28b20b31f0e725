use cli::text::{option_into_debug_string, option_into_display_string, text_or_none};

#[test]
fn present_values_are_shown_as_they_display() {
    assert_eq!("17", option_into_display_string(&Some(17u64)));
    assert_eq!("text", option_into_display_string(&Some("text")));
    assert_eq!("-3", option_into_display_string(&Some(-3i32)));
}

#[test]
fn absent_values_are_shown_as_none() {
    assert_eq!("None", option_into_display_string::<u64>(&None));
    assert_eq!("None", option_into_debug_string::<u64>(&None));
    assert_eq!("None", text_or_none(None));
}

#[test]
fn present_values_are_shown_as_they_debug() {
    assert_eq!("17", option_into_debug_string(&Some(17u64)));
    assert_eq!("\"text\"", option_into_debug_string(&Some("text")));
    assert_eq!("[1, 2]", option_into_debug_string(&Some(vec![1, 2])));
    assert_eq!("Some(1)", option_into_debug_string(&Some(Some(1))));
}

#[test]
fn a_present_text_is_shown_as_it_is() {
    assert_eq!("None?", text_or_none(Some("None?".to_string())));
    assert_eq!("", text_or_none(Some(String::new())));
}
