use gencam_client::envelope::{decode_envelope, trim_trailing_nuls};
use gencam_client::errors::GcError;

#[test]
fn trim_removes_trailing_zeros() {
    let buffer = [1u8, 2, 3, 0, 0, 0];
    assert_eq!(trim_trailing_nuls(&buffer), vec![1u8, 2, 3]);
}

#[test]
fn trim_keeps_interior_zeros() {
    let buffer = [1u8, 0, 2, 0, 0];
    assert_eq!(trim_trailing_nuls(&buffer), vec![1u8, 0, 2]);
}

#[test]
fn trim_of_empty_is_empty() {
    let buffer: [u8; 0] = [];
    assert_eq!(trim_trailing_nuls(&buffer), Vec::<u8>::new());
}

#[test]
fn trim_of_all_zeros_is_empty() {
    let buffer = [0u8; 4096];
    assert_eq!(trim_trailing_nuls(&buffer), Vec::<u8>::new());
}

#[test]
fn trim_without_padding_changes_nothing() {
    let buffer = [9u8, 8, 7];
    assert_eq!(trim_trailing_nuls(&buffer), vec![9u8, 8, 7]);
}

#[test]
fn invalid_json_is_protocol_error() {
    let mut buffer = b"this is not json".to_vec();
    buffer.resize(4096, 0);
    let r = decode_envelope(&buffer);
    assert_eq!(r, Err(GcError::ProtocolError));
}

#[test]
fn valid_json_of_wrong_shape_is_protocol_error() {
    let mut buffer = b"{\"note\": \"well-formed but no envelope\"}".to_vec();
    buffer.resize(4096, 0);
    let r = decode_envelope(&buffer);
    assert_eq!(r, Err(GcError::ProtocolError));
}
