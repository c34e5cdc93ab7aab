use tplink_plug::{
    conclude, encrypt_payload, frame_request, interpret_reply, ExchangeEvent, READ_TIMEOUT_MS,
};

#[test]
fn failed_connection_yields_connection_error() {
    // a server that refuses or drops the connection leaves the exchange here
    let err = conclude(ExchangeEvent::ConnectFailed).unwrap_err();
    assert_eq!(err.message(), "Connection error");
}

#[test]
fn failed_write_yields_write_error() {
    let err = conclude(ExchangeEvent::WriteFailed).unwrap_err();
    assert_eq!(err.message(), "Write failed");
}

#[test]
fn silent_server_yields_read_error_after_the_deadline() {
    // a server that never answers trips the read deadline
    assert_eq!(READ_TIMEOUT_MS, 5000);
    let err = conclude(ExchangeEvent::ReadFailed).unwrap_err();
    assert_eq!(err.message(), "Read failed");
}

#[test]
fn non_json_reply_yields_deserialization_error() {
    let frame = encrypt_payload(b"this is no document".to_vec());
    let err = conclude(ExchangeEvent::Reply(frame)).unwrap_err();
    assert!(err.message().starts_with("Deserialization failed. Reason: "));
    assert!(err.message().len() > "Deserialization failed. Reason: ".len());
}

#[test]
fn wrong_shape_reply_yields_deserialization_error() {
    let frame = encrypt_payload(b"{\"system\":5}".to_vec());
    let err = conclude(ExchangeEvent::Reply(frame)).unwrap_err();
    assert_eq!(
        err.message(),
        "Deserialization failed. Reason: unexpected response shape"
    );
}

#[test]
fn invalid_utf8_reply_yields_decoding_error() {
    // 0xC3 followed by 0x28 is no UTF-8 sequence; cipher it by hand
    let plain = [0xC3u8, 0x28];
    let c0 = plain[0] ^ 171;
    let c1 = plain[1] ^ c0;
    let frame = vec![0u8, 0, 0, 2, c0, c1];
    let err = conclude(ExchangeEvent::Reply(frame)).unwrap_err();
    assert_eq!(err.message(), "Decoding failed");
}

#[test]
fn truncated_reply_yields_truncated_frame_error() {
    let mut frame = encrypt_payload(b"{\"system\":{}}".to_vec());
    frame.truncate(frame.len() - 2);
    let err = conclude(ExchangeEvent::Reply(frame)).unwrap_err();
    assert_eq!(err.message(), "Truncated frame");
}

#[test]
fn whole_reply_yields_the_typed_response() {
    let frame =
        encrypt_payload(b"{\"emeter\":{\"get_realtime\":{\"err_code\":0,\"power_mw\":1250}}}".to_vec());
    let resp = conclude(ExchangeEvent::Reply(frame)).unwrap();
    let rt = resp.emeter.unwrap().get_realtime.unwrap();
    assert_eq!(rt.err_code, 0);
    assert_eq!(rt.power_mw, Some(tplink_plug::JsonNumber::Int(1250)));
}

#[test]
fn interpret_reply_matches_conclude_on_replies() {
    let frame = encrypt_payload(b"{}".to_vec());
    let a = interpret_reply(frame.as_slice()).unwrap();
    let b = conclude(ExchangeEvent::Reply(frame)).unwrap();
    assert_eq!(a, b);
}

#[test]
fn frame_request_frames_the_utf8_bytes() {
    let body = "{\"emeter\":{\"get_realtime\":{}}}";
    let framed = frame_request(body).unwrap();
    assert_eq!(framed, encrypt_payload(body.as_bytes().to_vec()));
}
