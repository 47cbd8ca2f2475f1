use gla::shader::{prepare_source, SourceError};

#[test]
fn carriage_returns_are_removed() {
    let r = prepare_source(b"void main() {\r\n}\r\n");
    assert_eq!(r, Ok(b"void main() {\n}\n".to_vec()));
}

#[test]
fn text_without_carriage_returns_is_unchanged() {
    let r = prepare_source(b"#version 330 core\nvoid main() {}\n");
    assert_eq!(r, Ok(b"#version 330 core\nvoid main() {}\n".to_vec()));
}

#[test]
fn empty_source_stays_empty() {
    assert_eq!(prepare_source(b""), Ok(Vec::new()));
}

#[test]
fn only_carriage_returns_give_empty_source() {
    assert_eq!(prepare_source(b"\r\r\r"), Ok(Vec::new()));
}

#[test]
fn nul_byte_is_refused_at_its_place_after_stripping() {
    let r = prepare_source(b"\ra\r\0b");
    assert_eq!(r, Err(SourceError::InteriorNul(1)));
}

#[test]
fn nul_byte_at_start_is_refused() {
    assert_eq!(prepare_source(b"\0"), Err(SourceError::InteriorNul(0)));
}
