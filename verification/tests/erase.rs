use secret_box::Zeroize;

#[test]
fn zeroize_clears_a_byte_vector() {
    let mut bytes: Vec<u8> = vec![1, 2, 3, 4, 5];
    bytes.zeroize();
    assert_eq!(bytes, Vec::<u8>::new());
}

#[test]
fn zeroize_keeps_an_empty_vector_empty() {
    let mut bytes: Vec<u8> = Vec::new();
    bytes.zeroize();
    assert!(bytes.is_empty());
}

#[test]
fn zeroize_zeroes_every_byte_of_an_array() {
    let mut bytes: [u8; 6] = [0xFF, 0x01, 0x00, 0x7F, 0x80, 0x10];
    bytes.zeroize();
    assert_eq!(bytes, [0u8; 6]);
}

#[test]
fn zeroize_takes_an_array_of_no_bytes() {
    let mut bytes: [u8; 0] = [];
    bytes.zeroize();
    assert_eq!(bytes.len(), 0);
}
