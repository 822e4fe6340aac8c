use valdi_rust::counter::label_bytes;

#[test]
fn label_bytes_are_the_utf8_encoding() {
    assert_eq!(label_bytes("Count: é".to_string()), "Count: é".as_bytes().to_vec());
    assert_eq!(label_bytes(String::new()), Vec::<u8>::new());
}
