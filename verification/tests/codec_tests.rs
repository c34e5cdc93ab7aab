use tplink_plug::{decrypt_payload, encrypt_payload, size_from_bytes, size_to_bytes};

#[test]
fn test_encrypt_payload() {
    let ep = encrypt_payload(
        String::from("{\"system\":{\"set_relay_state\":{\"state\":0}}}").as_bytes().to_vec(),
    );
    let dp = decrypt_payload(ep.as_slice());
    assert!(dp.is_ok());
}

#[test]
fn round_trip_empty() {
    let ep = encrypt_payload(Vec::new());
    assert_eq!(ep, vec![0u8, 0, 0, 0]);
    let dp = decrypt_payload(ep.as_slice()).unwrap();
    assert_eq!(dp, Vec::<u8>::new());
}

#[test]
fn round_trip_with_key_byte() {
    let payload = vec![171u8, 0, 171, 255, 171, 171, 1];
    let ep = encrypt_payload(payload.clone());
    let dp = decrypt_payload(ep.as_slice()).unwrap();
    assert_eq!(dp, payload);
}

#[test]
fn round_trip_long() {
    let payload: Vec<u8> = (0..1000u32).map(|i| (i % 256) as u8).collect();
    let ep = encrypt_payload(payload.clone());
    assert_eq!(ep.len(), payload.len() + 4);
    let dp = decrypt_payload(ep.as_slice()).unwrap();
    assert_eq!(dp, payload);
}

#[test]
fn framing_prefix_is_big_endian_length() {
    let payload = vec![7u8; 300];
    let ep = encrypt_payload(payload);
    assert_eq!(&ep[0..4], &[0u8, 0, 1, 44]);
    assert_eq!(ep.len(), 304);
}

#[test]
fn encode_is_deterministic() {
    let payload = vec![1u8, 2, 3, 171, 5];
    let a = encrypt_payload(payload.clone());
    let b = encrypt_payload(payload);
    assert_eq!(a, b);
}

#[test]
fn cipher_chains_ciphertext_bytes() {
    let ep = encrypt_payload(vec![0x10u8, 0x20]);
    let c0 = 0x10u8 ^ 171;
    let c1 = 0x20u8 ^ c0;
    assert_eq!(&ep[4..], &[c0, c1]);
}

#[test]
fn decode_rejects_buffer_shorter_than_prefix() {
    let err = decrypt_payload(&[0u8, 0]).unwrap_err();
    assert_eq!(err.message(), "Truncated frame");
}

#[test]
fn decode_rejects_frame_shorter_than_declared() {
    // the prefix declares five payload bytes, only three follow
    let buf = [0u8, 0, 0, 5, 1, 2, 3];
    let err = decrypt_payload(&buf).unwrap_err();
    assert_eq!(err.message(), "Truncated frame");
}

#[test]
fn decode_ignores_trailing_bytes() {
    let mut ep = encrypt_payload(vec![9u8, 8, 7]);
    ep.push(0xEE);
    ep.push(0xEE);
    let dp = decrypt_payload(ep.as_slice()).unwrap();
    assert_eq!(dp, vec![9u8, 8, 7]);
}

#[test]
fn relay_command_scenario() {
    let text = "{\"system\":{\"set_relay_state\":{\"state\":0}}}";
    assert_eq!(text.len(), 42);
    let ep = encrypt_payload(text.as_bytes().to_vec());
    assert_eq!(&ep[0..4], &[0u8, 0, 0, 42]);
    assert_eq!(ep[4], 0x7B ^ 171);
    let dp = decrypt_payload(ep.as_slice()).unwrap();
    assert_eq!(String::from_utf8(dp).unwrap(), text);
}

#[test]
fn size_round_trip() {
    let bytes = size_to_bytes(0x01020304);
    assert_eq!(bytes, [1u8, 2, 3, 4]);
    assert_eq!(size_from_bytes(&bytes), 0x01020304);
    assert_eq!(size_to_bytes(42), [0u8, 0, 0, 42]);
    assert_eq!(size_from_bytes(&[0u8, 0, 0, 42]), 42);
}
