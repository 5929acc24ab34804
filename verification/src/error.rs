use tokio_tungstenite::tungstenite::Error as WsError;
use vstd::prelude::*;

verus! {

/// The websocket layer's error type.
#[verifier::external_type_specification]
#[verifier::external_body]
pub struct ExTungsteniteError(WsError);

/// The protobuf decoder's error type.
#[verifier::external_type_specification]
#[verifier::external_body]
pub struct ExDecodeError(prost::DecodeError);

/// The protobuf encoder's error type.
#[verifier::external_type_specification]
#[verifier::external_body]
pub struct ExEncodeError(prost::EncodeError);

/// Everything that can go wrong while talking to a Rust+ server.
#[derive(Debug)]
pub enum Error {
    /// The websocket could not be opened, or failed while in use.
    WebsocketConnectionError(WsError),
    /// A message from the server was not valid protobuf.
    ProtobufDecodeError(prost::DecodeError),
    /// A request could not be encoded.
    ProtobufEncodeError(prost::EncodeError),
    /// The connection closed before the response arrived.
    WebsocketConnectionClosed,
    /// The server answered with an error message.
    ServerError(String),
    /// The response lacked the field that the request asks for.
    MissingResponseField(&'static str),
    /// A request was sent before `connect`.
    NotConnected,
    /// `build` was called before the named field was set.
    BuilderMissingField(&'static str),
}

} // verus!
