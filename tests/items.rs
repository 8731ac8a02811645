use dataproc::filter_items;

fn strings(v: &[&str]) -> Vec<String> {
    v.iter().map(|s| s.to_string()).collect()
}

#[test]
fn drops_empty_strings_in_order() {
    assert_eq!(filter_items(strings(&["a", "", "b", ""])), strings(&["a", "b"]));
}

#[test]
fn empty_input_gives_empty_output() {
    assert_eq!(filter_items(Vec::new()), Vec::<String>::new());
}

#[test]
fn all_empty_strings_give_empty_output() {
    assert_eq!(filter_items(strings(&["", "", ""])), Vec::<String>::new());
}

#[test]
fn nothing_to_drop_keeps_everything() {
    assert_eq!(filter_items(strings(&["x", " ", "yz"])), strings(&["x", " ", "yz"]));
}

#[test]
fn filtering_twice_equals_filtering_once() {
    let input = strings(&["", "q", "", "r", "s", ""]);
    let once = filter_items(input);
    let twice = filter_items(once.clone());
    assert_eq!(twice, once);
    assert_eq!(once, strings(&["q", "r", "s"]));
}
