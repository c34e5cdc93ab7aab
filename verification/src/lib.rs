//! A client library for the local-network control protocol of a family of
//! smart plugs: a length-prefixed, stream-ciphered JSON exchange, one
//! request and one reply per connection.
//!
//! The pieces, wire side first: `codec` frames and ciphers payload bytes;
//! `transport` settles one exchange from how it ended on the connection;
//! `json` and `schema` type the reply, tolerating the sparse field sets
//! devices answer with; `device` builds the request document of each
//! operation. Opening the connection and moving the bytes is the caller's
//! part: the library decides, from plain values, what goes out and what
//! came back.

pub mod codec;
pub mod device;
pub mod error;
pub mod json;
pub mod schema;
pub mod text;
pub mod transport;

pub use codec::{decrypt_payload, encrypt_payload, size_from_bytes, size_to_bytes};
pub use device::{DeviceType, TpLinkDevice};
pub use error::PlugError;
pub use json::{JsonNumber, JsonValue};
pub use schema::{
    EmeterGetDaystatItem, EmeterGetDaystatResponse, EmeterGetRealtimeResponse,
    EmeterGetVGainIGainResponse, EmeterResponse, PlugResponse, SystemGetSysInfoResponse,
    SystemResponse,
};
pub use transport::{conclude, frame_request, interpret_reply, ExchangeEvent, READ_TIMEOUT_MS};
