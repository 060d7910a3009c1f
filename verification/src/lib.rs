//! A verified request-handling pipeline for a serverless object-detection
//! service: a gateway event carrying a base64-encoded image is decoded,
//! validated against the model's accepted input sizes, annotated with the
//! detections the inference engine returned, re-encoded, and wrapped in a
//! gateway response; every failure along the way maps to a definite
//! status code and message.

pub mod annotate;
pub mod codec;
pub mod handler;
pub mod image_data;
pub mod model;
pub mod response;
