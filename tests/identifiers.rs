use todo_backend::ident::{binary_to_ulid, text_to_ulid, ulid_to_binary, ulid_to_text, ulid_to_vec, IdError};

#[test]
fn binary_of_wrong_length_is_rejected() {
    assert_eq!(binary_to_ulid(&[0u8; 15]).err(), Some(IdError::InvalidLength));
    assert_eq!(binary_to_ulid(&[0u8; 17]).err(), Some(IdError::InvalidLength));
    assert_eq!(binary_to_ulid(&[]).err(), Some(IdError::InvalidLength));
}

#[test]
fn binary_is_big_endian() {
    let mut bytes = [0u8; 16];
    bytes[0] = 1;
    bytes[15] = 2;
    let id = binary_to_ulid(&bytes).unwrap();
    assert_eq!(id.0, (1u128 << 120) | 2);
    assert_eq!(ulid_to_binary(id), bytes);
    assert_eq!(ulid_to_vec(id), bytes.to_vec());
}

#[test]
fn text_form_is_crockford_base32() {
    let id = ulid::Ulid(0x41414141414141414141414141414141);
    assert_eq!(ulid_to_text(&id), "21850M2GA1850M2GA1850M2GA1");
    assert_eq!(ulid_to_text(&ulid::Ulid(0)), "00000000000000000000000000");
    assert_eq!(ulid_to_text(&ulid::Ulid(u128::MAX)), "7ZZZZZZZZZZZZZZZZZZZZZZZZZ");
}

#[test]
fn text_decoding() {
    assert_eq!(text_to_ulid("21850M2GA1850M2GA1850M2GA1").unwrap().0, 0x41414141414141414141414141414141);
    assert_eq!(text_to_ulid("21850m2ga1850m2ga1850m2ga1").unwrap().0, 0x41414141414141414141414141414141);
    assert_eq!(text_to_ulid("21850M2GA1850M2GA1850M2GA").err(), Some(IdError::InvalidText));
    assert_eq!(text_to_ulid("21850M2GA1850M2GA1850M2GAU").err(), Some(IdError::InvalidText));
    assert_eq!(text_to_ulid("").err(), Some(IdError::InvalidText));
}

#[test]
fn identifier_round_trip() {
    let samples: [[u8; 16]; 3] = [
        [0u8; 16],
        [255u8; 16],
        [1, 128, 7, 42, 99, 0, 3, 250, 17, 18, 19, 200, 201, 5, 6, 77],
    ];
    for bytes in samples.iter() {
        let id = binary_to_ulid(bytes).unwrap();
        let text = ulid_to_text(&id);
        assert_eq!(text.len(), 26);
        let back = text_to_ulid(&text).unwrap();
        assert_eq!(ulid_to_binary(back), *bytes);
    }
}
