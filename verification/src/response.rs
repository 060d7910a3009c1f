//! The gateway response envelope and the mapping of every per-request
//! failure to a definite status code and plain-text message.

use vstd::prelude::*;

verus! {

/// Everything that can go wrong while serving one invocation.
///
/// The first five variants are caused by the request itself; the last two
/// by the system. The distinction decides the status class of the response.
#[derive(Clone, Copy, PartialEq, Eq, Structural, Debug)]
pub enum HandlerError {
    /// The gateway event carried no body at all.
    MissingBody,
    /// The body is present but is not valid base64 text.
    InvalidEncoding,
    /// The decoded bytes match no known image signature.
    UnrecognizedFormat,
    /// The bytes match a known signature but decoding failed midway.
    CorruptImage,
    /// The image decoded, but its dimensions fall outside the range the
    /// model was configured to accept.
    SizeOutOfRange,
    /// The inference engine reported an internal failure.
    EngineFailure,
    /// The encoder failed while serializing the annotated image.
    EncodeFailure,
}

/// The status code a failure maps to: 400 when the request caused it,
/// 500 when the system did.
pub open spec fn error_status(e: HandlerError) -> u16 {
    match e {
        HandlerError::EngineFailure => 500,
        HandlerError::EncodeFailure => 500,
        _ => 400,
    }
}

/// The response body for a failure; each names the stage that failed.
pub open spec fn error_text(e: HandlerError) -> Seq<char> {
    match e {
        HandlerError::MissingBody => "no body found in the request"@,
        HandlerError::InvalidEncoding => "request body is not valid base64"@,
        HandlerError::UnrecognizedFormat => "decode failed: unrecognized image format"@,
        HandlerError::CorruptImage => "decode failed: corrupt image data"@,
        HandlerError::SizeOutOfRange => "inference rejected: image dimensions outside the accepted range"@,
        HandlerError::EngineFailure => "inference failed: internal engine error"@,
        HandlerError::EncodeFailure => "encode failed: internal encoder error"@,
    }
}

/// The fields of the gateway response that this handler produces.
pub struct GatewayResponse {
    pub status_code: u16,
    pub content_type: String,
    pub body: String,
    pub is_base64_encoded: bool,
}

/// The mathematical content of a [`GatewayResponse`].
pub struct ResponseView {
    pub status: int,
    pub content_type: Seq<char>,
    pub body: Seq<char>,
    pub is_base64: bool,
}

impl View for GatewayResponse {
    type V = ResponseView;

    open spec fn view(&self) -> ResponseView {
        ResponseView {
            status: self.status_code as int,
            content_type: self.content_type@,
            body: self.body@,
            is_base64: self.is_base64_encoded,
        }
    }
}

/// The exact response a failure maps to: its status class, a plain-text
/// body naming the failing stage, and no base64 flag.
pub open spec fn error_response_view(e: HandlerError) -> ResponseView {
    ResponseView {
        status: error_status(e) as int,
        content_type: "text/plain"@,
        body: error_text(e),
        is_base64: false,
    }
}

/// Builds the response for a failed invocation. Every error is caught and
/// turned into such a response; none escapes as an unhandled fault.
pub fn error_response(e: HandlerError) -> (r: GatewayResponse)
    ensures
        r@ == error_response_view(e),
{
    let msg: &str = match e {
        HandlerError::MissingBody => "no body found in the request",
        HandlerError::InvalidEncoding => "request body is not valid base64",
        HandlerError::UnrecognizedFormat => "decode failed: unrecognized image format",
        HandlerError::CorruptImage => "decode failed: corrupt image data",
        HandlerError::SizeOutOfRange => "inference rejected: image dimensions outside the accepted range",
        HandlerError::EngineFailure => "inference failed: internal engine error",
        HandlerError::EncodeFailure => "encode failed: internal encoder error",
    };
    let status: u16 = match e {
        HandlerError::EngineFailure => 500,
        HandlerError::EncodeFailure => 500,
        _ => 400,
    };
    GatewayResponse {
        status_code: status,
        content_type: "text/plain".to_owned(),
        body: msg.to_owned(),
        is_base64_encoded: false,
    }
}

} // verus!
