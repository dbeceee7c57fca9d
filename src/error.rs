//! Errors of the client.
use serde_json::Error as JsonError;
use std::io::Error as IoError;
use vstd::prelude::*;

verus! {

/// std's I/O error, carried opaque in `Error`.
#[verifier::external_type_specification]
#[verifier::external_body]
pub struct ExIoError(IoError);

/// serde_json's error, carried opaque in `Error`.
#[verifier::external_type_specification]
#[verifier::external_body]
pub struct ExJsonError(JsonError);

/// What can go wrong between the client and the player.
#[derive(Debug)]
pub enum Error {
    /// The response carried no data where data was expected.
    MissingData,
    /// The player closed the connection.
    StreamClosed,
    /// Reading from the connection failed.
    Read(IoError),
    /// The response data does not have the expected shape.
    Downcasting(JsonError),
    /// A frame from the player is not JSON of the expected shape.
    JsonDeser(JsonError),
    /// The player answered with an error; its reason.
    ServerError(String),
    /// A request could not be encoded.
    JsonSer(JsonError),
    /// Writing to the connection failed.
    Write(IoError),
    /// The connection could not be opened.
    Connection(IoError),
}

} // verus!
