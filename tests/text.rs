use dataproc::process_data;

#[test]
fn uppercases_mixed_ascii() {
    assert_eq!(process_data("abcXYZ").unwrap(), "ABCXYZ");
}

#[test]
fn uppercase_keeps_non_letters() {
    assert_eq!(process_data("a1-b_2 z!").unwrap(), "A1-B_2 Z!");
}

#[test]
fn uppercase_of_empty_text_is_empty() {
    assert_eq!(process_data("").unwrap(), "");
}

#[test]
fn uppercase_uses_full_unicode_mapping() {
    assert_eq!(process_data("straße").unwrap(), "STRASSE");
    assert_eq!(process_data("éa").unwrap(), "ÉA");
}

#[test]
fn uppercase_of_ascii_keeps_length_and_has_no_lowercase() {
    let input = "Hello, World! 42 abc";
    let out = process_data(input).unwrap();
    assert_eq!(out.len(), input.len());
    assert!(!out.chars().any(|c| c.is_ascii_lowercase()));
}
