//! Byte-level conversions at the pipeline's edges: base64 text to raw
//! bytes and back, and raw bytes to a raster and back. The conversions
//! themselves are done by outside libraries; each is named here and the
//! rest of the pipeline is proved against those names.

use vstd::prelude::*;

use crate::image_data::{DecodedImage, ImageView};
use crate::response::HandlerError;
use base64::Engine;

verus! {

/// What base64-decoding a piece of text yields: the decoded bytes, or
/// nothing when the text is not valid base64.
pub uninterp spec fn b64_decoding(s: Seq<char>) -> Option<Seq<u8>>;

/// The base64 text that encodes a byte sequence.
pub uninterp spec fn b64_encoding(b: Seq<u8>) -> Seq<char>;

/// What sniffing and decoding a byte buffer as an image yields: the
/// raster, or nothing when the bytes are not a decodable image.
pub uninterp spec fn image_decoding(b: Seq<u8>) -> Option<ImageView>;

/// Whether format sniffing matches a known image signature in the byte
/// content. When it does not, decoding cannot even start; when it does
/// but [`image_decoding`] still yields nothing, the bytes are corrupt.
pub uninterp spec fn image_format_recognized(b: Seq<u8>) -> bool;

/// The JPEG bytes that encode a raster.
pub uninterp spec fn jpeg_encoding(v: ImageView) -> Seq<u8>;

/// Relies on base64's `STANDARD` engine `decode`: the outcome depends on
/// the text alone, invalid base64 yields an error, never a panic, and
/// empty text is valid base64 for no bytes at all.
#[verifier::external_body]
fn b64_decode(s: &str) -> (r: Option<Vec<u8>>)
    ensures
        r matches Some(b) ==> b64_decoding(s@) == Some(b@),
        r is Some <==> b64_decoding(s@) is Some,
        r is None ==> s@.len() > 0,
        r matches Some(b) ==> (s@.len() == 0 ==> b@.len() == 0),
{
    match base64::engine::general_purpose::STANDARD.decode(s) {
        Ok(bytes) => Some(bytes),
        Err(_) => None,
    }
}

/// Relies on base64's `STANDARD` engine `encode`, which pads its output;
/// decoding the text it produces is documented to give back exactly the
/// encoded bytes. `encode` panics only when the output length overflows,
/// which the length bound rules out.
#[verifier::external_body]
fn b64_encode(bytes: &Vec<u8>) -> (r: String)
    requires
        bytes@.len() <= usize::MAX / 4,
    ensures
        r@ == b64_encoding(bytes@),
        b64_decoding(r@) == Some(bytes@),
{
    base64::engine::general_purpose::STANDARD.encode(bytes)
}

/// Relies on image's `ImageReader`: `with_guessed_format` sniffs the
/// format from the first bytes of the content alone (an unreadable or
/// unknown signature — in particular an empty buffer — leaves no
/// format), `decode` fails on bytes it cannot decode, and a decoded
/// image converted with `to_rgb8` yields a buffer of exactly three bytes
/// per pixel. image offers process-global decoding hooks that could
/// change what the same bytes decode to, but nothing in this build
/// registers one, so the outcome depends on the bytes alone.
#[verifier::external_body]
fn decode_image_bytes(bytes: &Vec<u8>) -> (r: Result<DecodedImage, HandlerError>)
    ensures
        r matches Ok(img) ==> image_decoding(bytes@) == Some(img@) && img.wf(),
        r is Ok <==> image_decoding(bytes@) is Some,
        r matches Err(e) ==> e == (if image_format_recognized(bytes@) {
            HandlerError::CorruptImage
        } else {
            HandlerError::UnrecognizedFormat
        }),
        r is Ok ==> bytes@.len() > 0,
        r matches Err(e) ==> (bytes@.len() == 0 ==> !image_format_recognized(bytes@)),
{
    let reader = match image::ImageReader::new(std::io::Cursor::new(bytes)).with_guessed_format() {
        Ok(rd) => rd,
        Err(_) => { return Err(HandlerError::UnrecognizedFormat) },
    };
    if reader.format().is_none() {
        return Err(HandlerError::UnrecognizedFormat);
    }
    match reader.decode() {
        Ok(decoded) => {
            let rgb = decoded.to_rgb8();
            let (width, height) = rgb.dimensions();
            Ok(DecodedImage { width, height, pixels: rgb.into_raw() })
        },
        Err(_) => Err(HandlerError::CorruptImage),
    }
}

/// Relies on image's JPEG encoder through `DynamicImage::write_to`: the
/// bytes produced depend on the raster alone, writing to an in-memory
/// buffer cannot fail, and the encoder errs exactly when a dimension is
/// zero or above the JPEG format's 65535 ceiling — an error, never a
/// panic.
#[verifier::external_body]
pub(crate) fn encode_jpeg(img: &DecodedImage) -> (r: Result<Vec<u8>, HandlerError>)
    requires
        img.wf(),
    ensures
        r is Ok <==> (1 <= img@.width <= 65535 && 1 <= img@.height <= 65535),
        r matches Ok(b) ==> b@ == jpeg_encoding(img@),
        r matches Err(e) ==> e == HandlerError::EncodeFailure,
{
    let raster = match image::RgbImage::from_raw(img.width, img.height, img.pixels.clone()) {
        Some(buf) => buf,
        None => { return Err(HandlerError::EncodeFailure) },
    };
    let mut out: Vec<u8> = Vec::new();
    let dynamic = image::DynamicImage::ImageRgb8(raster);
    match dynamic.write_to(&mut std::io::Cursor::new(&mut out), image::ImageFormat::Jpeg) {
        Ok(()) => Ok(out),
        Err(_) => Err(HandlerError::EncodeFailure),
    }
}

/// The Extract stage: reads the request body field and base64-decodes it.
/// Fails with `MissingBody` when the body is absent and `InvalidEncoding`
/// when it is not valid base64; otherwise yields the raw image bytes.
pub fn extract_body(body: &Option<String>) -> (r: Result<Vec<u8>, HandlerError>)
    ensures
        body is None ==> (r matches Err(e) && e == HandlerError::MissingBody),
        body matches Some(s) ==> match b64_decoding(s@) {
            Some(bytes) => r matches Ok(b) && b@ == bytes,
            None => r matches Err(e) && e == HandlerError::InvalidEncoding,
        },
{
    match body {
        None => Err(HandlerError::MissingBody),
        Some(s) => match b64_decode(s.as_str()) {
            Some(bytes) => Ok(bytes),
            None => Err(HandlerError::InvalidEncoding),
        },
    }
}

/// Law: base64-encoding a byte buffer, embedding it as the request body,
/// and running the Extract stage gives back exactly the original bytes.
pub fn extracted_body_round_trips(bytes: &Vec<u8>) -> (r: Result<Vec<u8>, HandlerError>)
    requires
        bytes@.len() <= usize::MAX / 4,
    ensures
        r matches Ok(b) && b@ == bytes@,
{
    let encoded = b64_encode(bytes);
    extract_body(&Some(encoded))
}

/// The Extract and Decode stages together: body field to raster. Each
/// failure keeps its own error: a missing body, text that is not base64,
/// bytes with no recognizable image signature, or an image that is
/// recognized but fails to decode.
pub fn extract_image_from_body(body: &Option<String>) -> (r: Result<DecodedImage, HandlerError>)
    ensures
        body is None ==> (r matches Err(e) && e == HandlerError::MissingBody),
        body matches Some(s) ==> match b64_decoding(s@) {
            None => r matches Err(e) && e == HandlerError::InvalidEncoding,
            Some(bytes) => match image_decoding(bytes) {
                None => r matches Err(e) && e == (if image_format_recognized(bytes) {
                    HandlerError::CorruptImage
                } else {
                    HandlerError::UnrecognizedFormat
                }),
                Some(v) => r matches Ok(img) && img@ == v && img.wf(),
            },
        },
{
    let bytes = match extract_body(body) {
        Ok(b) => b,
        Err(e) => { return Err(e) },
    };
    decode_image_bytes(&bytes)
}

/// The Respond stage for a successful invocation: base64-encodes the
/// already-encoded image bytes and wraps them as a binary-flagged
/// `image/jpeg` response with status 200.
pub fn build_success_response(image_bytes: &Vec<u8>) -> (r: crate::response::GatewayResponse)
    requires
        image_bytes@.len() <= usize::MAX / 4,
    ensures
        r@ == (crate::response::ResponseView {
            status: 200,
            content_type: "image/jpeg"@,
            body: b64_encoding(image_bytes@),
            is_base64: true,
        }),
{
    let encoded = b64_encode(image_bytes);
    crate::response::GatewayResponse {
        status_code: 200,
        content_type: "image/jpeg".to_owned(),
        body: encoded,
        is_base64_encoded: true,
    }
}

} // verus!
