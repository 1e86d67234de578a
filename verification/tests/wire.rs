use meili::wire::{WireError, WireMessage, WireMessageHeader};

fn header_bytes(flags: u64, inner: &[u8]) -> Vec<u8> {
    let mut v = flags.to_le_bytes().to_vec();
    assert!(inner.len() < 128);
    v.push(inner.len() as u8);
    v.extend_from_slice(inner);
    v
}

#[test]
fn message_number_is_the_low_byte_of_the_flags() {
    let h = WireMessageHeader { msg_flags: 0x1_05, inner: vec![] };
    assert_eq!(h.get_msg_num(), 5);
    let h = WireMessageHeader { msg_flags: u64::MAX, inner: vec![1] };
    assert_eq!(h.get_msg_num(), 255);
    let h = WireMessageHeader { msg_flags: 0x300, inner: vec![] };
    assert_eq!(h.get_msg_num(), 0);
}

#[test]
fn unknown_message_numbers_are_refused() {
    let bytes = header_bytes(0x1_05, &[1, 2, 3]);
    assert!(matches!(WireMessage::from_bytes(&bytes), Err(WireError::UnknownMessage { msg_num: 5 })));
    assert!(matches!(
        WireMessage::try_from_bytes(&header_bytes(7, &[])),
        Some(Err(WireError::UnknownMessage { msg_num: 7 }))
    ));
}

#[test]
fn the_header_format_agrees_with_serde_bare() {
    let bytes = serde_bare::to_vec(&(0x42u64, serde_bytes::ByteBuf::from(vec![9u8, 8, 7]))).unwrap();
    assert_eq!(bytes, header_bytes(0x42, &[9, 8, 7]));
    assert!(matches!(WireMessage::from_bytes(&bytes), Err(WireError::UnknownMessage { msg_num: 0x42 })));
}

#[test]
fn short_input_is_a_header_error() {
    for bytes in [&[][..], &[1, 2, 3][..], &[1, 0, 0, 0, 0, 0, 0, 0][..], &[1, 0, 0, 0, 0, 0, 0, 0, 4, 1][..]] {
        match WireMessage::from_bytes(bytes) {
            Err(WireError::HeaderDecode(e)) => {
                let expected = serde_bare::from_slice::<(u64, serde_bytes::ByteBuf)>(bytes).unwrap_err();
                assert_eq!(e.to_string(), expected.to_string());
            }
            _ => panic!("expected a header error"),
        }
        assert!(matches!(WireMessage::try_from_bytes(bytes), Some(Err(WireError::HeaderDecode(_)))));
    }
}

#[test]
fn message_number_zero_is_not_decoded_yet() {
    assert!(WireMessage::try_from_bytes(&header_bytes(0, &[])).is_none());
    assert!(WireMessage::try_from_bytes(&header_bytes(0x100, &[1])).is_none());
}

#[test]
fn decoded_header_decisions() {
    let decode_error = serde_bare::from_slice::<u64>(&[]).unwrap_err();
    let text = decode_error.to_string();
    match WireMessage::from_decoded_header(Err(decode_error)) {
        Err(WireError::HeaderDecode(e)) => assert_eq!(e.to_string(), text),
        _ => panic!("expected a header error"),
    }
    let h = WireMessageHeader { msg_flags: 0xff01, inner: vec![] };
    assert!(matches!(
        WireMessage::from_decoded_header(Ok(h)),
        Err(WireError::UnknownMessage { msg_num: 1 })
    ));
}
