use dataproc::{Action, DataError, DataProcessor, RESOURCE_PATH};

#[test]
fn fresh_processor_finishes_on_text() {
    let mut p = DataProcessor::new();
    assert_eq!(p.process("anything".as_bytes()), Ok(Action::Finish));
}

#[test]
fn fresh_processor_finishes_on_empty_input() {
    let mut p = DataProcessor::new();
    assert_eq!(p.process(&[]), Ok(Action::Finish));
}

#[test]
fn invalid_utf8_is_an_encoding_error() {
    let mut p = DataProcessor::new();
    assert_eq!(p.process(&[0xff, 0xfe, 0x41]), Err(DataError::InvalidEncoding));
    assert_eq!(p.process(&[0x61, 0xc3]), Err(DataError::InvalidEncoding));
}

#[test]
fn multibyte_utf8_is_accepted() {
    let mut p = DataProcessor::new();
    assert_eq!(p.process("größe".as_bytes()), Ok(Action::Finish));
}

#[test]
fn decided_input_follows_the_cache() {
    let p = DataProcessor::new();
    assert_eq!(p.process_decoded(None), Err(DataError::InvalidEncoding));
    assert_eq!(p.process_decoded(Some("key")), Ok(Action::Finish));
}

#[test]
fn resource_path_is_fixed() {
    assert_eq!(RESOURCE_PATH, "file.txt");
}
