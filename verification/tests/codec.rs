use clipboard_watch::codec::{decode_base64, encode_base64, CodecError};

#[test]
fn encodes_without_padding() {
    let bytes = b"hello".to_vec();
    assert_eq!(encode_base64(&bytes), "aGVsbG8");
}

#[test]
fn encodes_empty_input_to_empty_text() {
    assert_eq!(encode_base64(&Vec::new()), "");
}

#[test]
fn decodes_what_was_encoded() {
    let bytes: Vec<u8> = vec![0, 1, 2, 250, 251, 252, 137];
    let text = encode_base64(&bytes);
    assert_eq!(decode_base64(&text), Ok(bytes));
}

#[test]
fn decodes_known_text() {
    assert_eq!(decode_base64("aGVsbG8"), Ok(b"hello".to_vec()));
}

#[test]
fn rejects_text_outside_the_alphabet() {
    assert_eq!(decode_base64("!!!"), Err(CodecError::InvalidBase64));
}

#[test]
fn rejects_padded_text() {
    // The engine is the unpadded one: padding characters are not valid input.
    assert_eq!(decode_base64("aGVsbG8="), Err(CodecError::InvalidBase64));
}
