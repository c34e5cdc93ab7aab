use vstd::prelude::*;
use vstd::string::StrSliceExecFns;
use vstd::string::StringExecFns;
use vstd::string::StringSliceAdditionalSpecFns;
use vstd::utf8::{decode_utf8, valid_utf8};

use crate::codec::{decrypt_payload, encrypt_payload, spec_decode, spec_encode};
use crate::error::PlugError;
use crate::json::{json_doc, parse_json, JsonValue};
use crate::schema::{plug_matches, plug_ok, PlugResponse};

verus! {

/// How long one read on the device connection may wait, in milliseconds.
pub const READ_TIMEOUT_MS: u64 = 5000;

/// How one request/response exchange ended on the connection side: the
/// connection could not be opened, the request could not be written, the
/// reply could not be read in time, or a reply buffer arrived in full.
pub enum ExchangeEvent {
    ConnectFailed,
    WriteFailed,
    ReadFailed,
    Reply(Vec<u8>),
}

/// The reply's text, for a reply that decodes to valid UTF-8.
pub open spec fn reply_text(w: Seq<u8>) -> Seq<char> {
    decode_utf8(spec_decode(w)->Some_0)
}

/// When a reply buffer yields a typed response: the frame is whole, its
/// plaintext is UTF-8, the text is one JSON document, and the document
/// has the response shape.
pub open spec fn reply_ok(w: Seq<u8>) -> bool {
    &&& spec_decode(w) is Some
    &&& valid_utf8(spec_decode(w)->Some_0)
    &&& json_doc(reply_text(w)) is Ok
    &&& plug_ok(json_doc(reply_text(w))->Ok_0)
}

/// The failure a reply buffer yields when it does not: the first stage
/// that refuses it names the cause.
pub open spec fn reply_err_msg(w: Seq<u8>) -> Seq<char> {
    if spec_decode(w) is None {
        "Truncated frame"@
    } else if !valid_utf8(spec_decode(w)->Some_0) {
        "Decoding failed"@
    } else {
        match json_doc(reply_text(w)) {
            Err(m) => "Deserialization failed. Reason: "@ + m,
            Ok(t) => "Deserialization failed. Reason: unexpected response shape"@,
        }
    }
}

/// Relies on `String::from_utf8`: it succeeds exactly on valid UTF-8
/// input, and then returns the text those bytes encode.
#[verifier::external_body]
fn bytes_to_string(v: Vec<u8>) -> (r: Option<String>)
    ensures
        match r {
            Some(s) => valid_utf8(v@) && s@ == decode_utf8(v@),
            None => !valid_utf8(v@),
        },
{
    match String::from_utf8(v) {
        Ok(s) => Some(s),
        Err(_) => None,
    }
}

/// Build the wire frame for a request text: its UTF-8 bytes behind the
/// length prefix, ciphered. `None` only for a text too long for the
/// four-byte prefix.
pub fn frame_request(s: &str) -> (r: Option<Vec<u8>>)
    ensures
        match r {
            Some(f) => s.spec_bytes().len() <= u32::MAX && f@ == spec_encode(s.spec_bytes()),
            None => s.spec_bytes().len() > u32::MAX,
        },
{
    let b = s.as_bytes_vec();
    if b.len() as u64 > u32::MAX as u64 {
        return None;
    }
    Some(encrypt_payload(b))
}

/// Interpret a fully read reply buffer: decode the frame, read the
/// plaintext as UTF-8, parse the text as one JSON document and type it.
/// Each stage that refuses the buffer is terminal and names the cause.
pub fn interpret_reply(data: &[u8]) -> (r: Result<PlugResponse, PlugError>)
    ensures
        match r {
            Ok(p) => reply_ok(data@) && plug_matches(p, json_doc(reply_text(data@))->Ok_0),
            Err(e) => !reply_ok(data@) && e@ == reply_err_msg(data@),
        },
{
    let plain = match decrypt_payload(data) {
        Ok(p) => p,
        Err(e) => return Err(e),
    };
    let text = match bytes_to_string(plain) {
        Some(s) => s,
        None => return Err(PlugError::new("Decoding failed")),
    };
    match parse_json(text.as_str()) {
        Ok(doc) => match PlugResponse::from_json(&doc) {
            Some(p) => Ok(p),
            None => Err(
                PlugError::new("Deserialization failed. Reason: unexpected response shape"),
            ),
        },
        Err(m) => {
            let mut msg: String = "Deserialization failed. Reason: ".to_owned();
            msg.append(m.as_str());
            Err(PlugError::new(msg.as_str()))
        },
    }
}

/// Settle one exchange from how it ended. A connection, write or read
/// failure is terminal and typed by its cause; a reply buffer is
/// interpreted in full.
pub fn conclude(ev: ExchangeEvent) -> (r: Result<PlugResponse, PlugError>)
    ensures
        match ev {
            ExchangeEvent::ConnectFailed => r matches Err(e) && e@ == "Connection error"@,
            ExchangeEvent::WriteFailed => r matches Err(e) && e@ == "Write failed"@,
            ExchangeEvent::ReadFailed => r matches Err(e) && e@ == "Read failed"@,
            ExchangeEvent::Reply(b) => match r {
                Ok(p) => reply_ok(b@) && plug_matches(p, json_doc(reply_text(b@))->Ok_0),
                Err(e) => !reply_ok(b@) && e@ == reply_err_msg(b@),
            },
        },
{
    match ev {
        ExchangeEvent::ConnectFailed => Err(PlugError::new("Connection error")),
        ExchangeEvent::WriteFailed => Err(PlugError::new("Write failed")),
        ExchangeEvent::ReadFailed => Err(PlugError::new("Read failed")),
        ExchangeEvent::Reply(b) => interpret_reply(b.as_slice()),
    }
}

/// A deserialization failure always carries a cause behind its label:
/// its message is never empty, whatever the parser reported.
pub proof fn lemma_deserialization_message_nonempty(w: Seq<u8>)
    requires
        spec_decode(w) is Some,
        valid_utf8(spec_decode(w)->Some_0),
        !reply_ok(w),
    ensures
        reply_err_msg(w).len() > 0,
{
    reveal_strlit("Deserialization failed. Reason: ");
    reveal_strlit("Deserialization failed. Reason: unexpected response shape");
}

} // verus!
