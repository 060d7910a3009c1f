//! One invocation end to end. The pipeline is strictly sequential —
//! Received, BodyExtracted, Decoded, Inferred, Annotated, Encoded,
//! Responded — and never proceeds past a failed stage: every failure maps
//! at once to an error response. The detect pass itself runs outside this
//! crate, so an invocation is handled in two steps: [`Handler::handle`]
//! carries it up to the point where the engine must run (acquiring the
//! exclusive detect permit on the way), and [`Handler::respond`] takes
//! the engine's outcome and carries it to the response (giving the permit
//! back).

use vstd::prelude::*;

use crate::annotate::{annotate, annotate_spec};
use crate::codec::{b64_encoding, build_success_response, extract_image_from_body, jpeg_encoding};
use crate::codec::{b64_decoding, image_decoding, image_format_recognized};
use crate::image_data::{detections_view, DecodedImage, Detection};
use crate::model::{ModelConfig, ModelLoadError, ModelManager};
use crate::response::{error_response, error_response_view, GatewayResponse, HandlerError,
    ResponseView};

verus! {

/// What a completed invocation answers with: the annotated image itself,
/// or a plain status text.
#[derive(Clone, Copy, PartialEq, Eq, Structural, Debug)]
pub enum ResponseMode {
    AnnotatedImage,
    StatusText,
}

/// Where one invocation stands after the pre-inference stages: either the
/// engine must run on the decoded raster next, or the invocation already
/// ended in a response.
pub enum Step {
    NeedDetect(DecodedImage),
    Respond(GatewayResponse),
}

/// What the engine's detect pass came back with: its detections, in
/// engine output order, or an internal failure.
pub enum DetectOutcome {
    Detections(Vec<Detection>),
    EngineFailed,
}

/// The response body of a successful invocation in status-text mode.
pub open spec fn status_text_view() -> ResponseView {
    ResponseView {
        status: 200,
        content_type: "text/plain"@,
        body: "detection complete"@,
        is_base64: false,
    }
}

/// Serves invocations for the lifetime of one process: holds the manager
/// of the single loaded engine and the configured response mode.
pub struct Handler {
    manager: ModelManager,
    mode: ResponseMode,
}

impl Handler {
    /// Whether a detect pass is in flight.
    pub closed spec fn busy(self) -> bool {
        self.manager.busy()
    }

    /// The fixed model configuration.
    pub closed spec fn config_spec(self) -> ModelConfig {
        self.manager.config_spec()
    }

    /// The configured response mode.
    pub closed spec fn mode_spec(self) -> ResponseMode {
        self.mode
    }

    /// Sets a handler up with a validated configuration. A process whose
    /// configuration is rejected here must never accept invocations.
    pub fn new(config: ModelConfig, mode: ResponseMode) -> (r: Result<Handler, ModelLoadError>)
        ensures
            r matches Ok(h) ==> h.config_spec() == config && h.mode_spec() == mode && !h.busy(),
            r is Ok <==> config.wf(),
            r matches Err(e) ==> e == ModelLoadError::InvalidConfig,
    {
        match ModelConfig::new(
            config.min_dim,
            config.opt_dim,
            config.max_dim,
            config.first_conf_permille,
            config.second_conf_permille,
            config.use_fp16,
            config.cpu_only,
        ) {
            Ok(validated) => Ok(Handler { manager: ModelManager::new(validated), mode }),
            Err(e) => Err(e),
        }
    }

    /// Whether a detect pass is in flight, for callers outside the
    /// verified world: [`Handler::handle`] must not be entered while it
    /// holds.
    pub fn is_busy(&self) -> (r: bool)
        ensures
            r == self.busy(),
    {
        self.manager.is_busy()
    }

    /// The pre-inference stages of one invocation: extract the body,
    /// base64-decode it, decode and sniff the image, and check its
    /// dimensions against the accepted input range. On any failure the
    /// invocation ends here with the matching error response; otherwise
    /// the exclusive detect permit is acquired and the decoded raster is
    /// handed out for the engine to run on.
    pub fn handle(&mut self, body: &Option<String>) -> (r: Step)
        requires
            !old(self).busy(),
        ensures
            final(self).config_spec() == old(self).config_spec(),
            final(self).mode_spec() == old(self).mode_spec(),
            final(self).busy() <==> r is NeedDetect,
            body is None ==> (r matches Step::Respond(resp) && resp@ == error_response_view(
                HandlerError::MissingBody,
            )),
            body matches Some(s) ==> match b64_decoding(s@) {
                None => r matches Step::Respond(resp) && resp@ == error_response_view(
                    HandlerError::InvalidEncoding,
                ),
                Some(bytes) => match image_decoding(bytes) {
                    None => r matches Step::Respond(resp) && resp@ == error_response_view(
                        if image_format_recognized(bytes) {
                            HandlerError::CorruptImage
                        } else {
                            HandlerError::UnrecognizedFormat
                        },
                    ),
                    Some(v) => if old(self).config_spec().accepts_spec(v.width, v.height) {
                        r matches Step::NeedDetect(img) && img@ == v && img.wf()
                    } else {
                        r matches Step::Respond(resp) && resp@ == error_response_view(
                            HandlerError::SizeOutOfRange,
                        )
                    },
                },
            },
    {
        let img = match extract_image_from_body(body) {
            Ok(img) => img,
            Err(e) => { return Step::Respond(error_response(e)) },
        };
        if !self.manager.accepts(img.width, img.height) {
            return Step::Respond(error_response(HandlerError::SizeOutOfRange));
        }
        let granted = self.manager.try_acquire();
        proof {
            assert(granted);
        }
        Step::NeedDetect(img)
    }

    /// The post-inference stages of one invocation: give the detect
    /// permit back, then — if the engine succeeded — annotate the raster
    /// with the detections in engine order, encode it as JPEG, and wrap
    /// it for the gateway; in status-text mode, answer with a fixed text
    /// instead. An engine failure maps to its error response, and an
    /// encoder failure to its own.
    pub fn respond(&mut self, img: &DecodedImage, outcome: DetectOutcome) -> (r: GatewayResponse)
        requires
            old(self).busy(),
            img.wf(),
        ensures
            !final(self).busy(),
            final(self).config_spec() == old(self).config_spec(),
            final(self).mode_spec() == old(self).mode_spec(),
            outcome is EngineFailed ==> r@ == error_response_view(HandlerError::EngineFailure),
            outcome matches DetectOutcome::Detections(dets) ==> match old(self).mode_spec() {
                ResponseMode::StatusText => r@ == status_text_view(),
                ResponseMode::AnnotatedImage => {
                    let annotated = annotate_spec(img@, detections_view(dets@));
                    &&& (r@.status == 200 <==> (1 <= annotated.width <= 65535 && 1
                        <= annotated.height <= 65535 && jpeg_encoding(annotated).len()
                        <= usize::MAX / 4))
                    &&& r@.status == 200 ==> r@ == (ResponseView {
                        status: 200,
                        content_type: "image/jpeg"@,
                        body: b64_encoding(jpeg_encoding(annotated)),
                        is_base64: true,
                    })
                    &&& r@.status != 200 ==> r@ == error_response_view(HandlerError::EncodeFailure)
                },
            },
    {
        self.manager.release();
        let dets = match outcome {
            DetectOutcome::EngineFailed => {
                return error_response(HandlerError::EngineFailure);
            },
            DetectOutcome::Detections(d) => d,
        };
        match self.mode {
            ResponseMode::StatusText => GatewayResponse {
                status_code: 200,
                content_type: "text/plain".to_owned(),
                body: "detection complete".to_owned(),
                is_base64_encoded: false,
            },
            ResponseMode::AnnotatedImage => {
                let annotated = annotate(img, &dets);
                match crate::codec::encode_jpeg(&annotated) {
                    Err(_) => error_response(HandlerError::EncodeFailure),
                    Ok(jpeg_bytes) => {
                        if jpeg_bytes.len() <= usize::MAX / 4 {
                            build_success_response(&jpeg_bytes)
                        } else {
                            error_response(HandlerError::EncodeFailure)
                        }
                    },
                }
            },
        }
    }
}

} // verus!
