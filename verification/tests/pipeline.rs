//! End-to-end exercises of the request-handling pipeline with the real
//! codec and base64 libraries linked.

use base64::Engine;
use std::io::Cursor;
use yolo_lambda::codec::{build_success_response, extract_body, extract_image_from_body,
    extracted_body_round_trips};
use yolo_lambda::handler::{DetectOutcome, Handler, ResponseMode, Step};
use yolo_lambda::image_data::{DecodedImage, Detection};
use yolo_lambda::model::{ModelConfig, ModelLoadError, ModelManager};

fn small_config() -> ModelConfig {
    ModelConfig::new(1, 64, 4096, 400, 150, true, true).unwrap()
}

fn test_handler(mode: ResponseMode) -> Handler {
    Handler::new(small_config(), mode).unwrap()
}

fn sample_raster(width: u32, height: u32) -> image::RgbImage {
    image::RgbImage::from_fn(width, height, |x, y| {
        image::Rgb([(x % 256) as u8, (y % 256) as u8, ((x + y) % 256) as u8])
    })
}

fn jpeg_bytes(width: u32, height: u32) -> Vec<u8> {
    let mut bytes: Vec<u8> = Vec::new();
    image::DynamicImage::ImageRgb8(sample_raster(width, height))
        .write_to(&mut Cursor::new(&mut bytes), image::ImageFormat::Jpeg)
        .unwrap();
    bytes
}

fn png_bytes(width: u32, height: u32) -> Vec<u8> {
    let mut bytes: Vec<u8> = Vec::new();
    image::DynamicImage::ImageRgb8(sample_raster(width, height))
        .write_to(&mut Cursor::new(&mut bytes), image::ImageFormat::Png)
        .unwrap();
    bytes
}

fn b64(bytes: &[u8]) -> String {
    base64::engine::general_purpose::STANDARD.encode(bytes)
}

fn sample_detection(x: u32, y: u32, w: u32, h: u32) -> Detection {
    Detection {
        x,
        y,
        width: w,
        height: h,
        label: "person".to_string(),
        confidence_permille: 875,
    }
}

#[test]
fn scenario_valid_jpeg_produces_annotated_jpeg_response() {
    let mut handler = test_handler(ResponseMode::AnnotatedImage);
    let body = Some(b64(&jpeg_bytes(64, 48)));
    let step = handler.handle(&body);
    let img = match step {
        Step::NeedDetect(img) => img,
        Step::Respond(resp) => panic!("expected a detect step, got status {}", resp.status_code),
    };
    assert_eq!(img.width, 64);
    assert_eq!(img.height, 48);
    let dets = vec![sample_detection(4, 4, 20, 16)];
    let resp = handler.respond(&img, DetectOutcome::Detections(dets));
    assert_eq!(resp.status_code, 200);
    assert_eq!(resp.content_type, "image/jpeg");
    assert!(resp.is_base64_encoded);
    let out_bytes = base64::engine::general_purpose::STANDARD
        .decode(&resp.body)
        .unwrap();
    let decoded = image::ImageReader::new(Cursor::new(out_bytes))
        .with_guessed_format()
        .unwrap()
        .decode()
        .unwrap();
    assert_eq!(decoded.width(), 64);
    assert_eq!(decoded.height(), 48);
    assert!(!handler.is_busy());
}

#[test]
fn scenario_missing_body_yields_400_naming_the_body() {
    let mut handler = test_handler(ResponseMode::AnnotatedImage);
    let step = handler.handle(&None);
    let resp = match step {
        Step::Respond(resp) => resp,
        Step::NeedDetect(_) => panic!("expected a response"),
    };
    assert_eq!(resp.status_code, 400);
    assert!(resp.body.contains("body"));
    assert!(!resp.is_base64_encoded);
    assert!(!handler.is_busy());
}

#[test]
fn scenario_empty_string_body_decodes_to_nothing_and_yields_400() {
    // An empty body string is valid base64 for zero bytes; zero bytes
    // match no image signature, so the decode stage rejects them.
    let mut handler = test_handler(ResponseMode::AnnotatedImage);
    let step = handler.handle(&Some(String::new()));
    let resp = match step {
        Step::Respond(resp) => resp,
        Step::NeedDetect(_) => panic!("expected a response"),
    };
    assert_eq!(resp.status_code, 400);
    assert!(resp.body.contains("unrecognized image format"));
    assert_eq!(extract_body(&Some(String::new())).unwrap(), Vec::<u8>::new());
}

#[test]
fn scenario_invalid_base64_yields_400() {
    let mut handler = test_handler(ResponseMode::AnnotatedImage);
    let step = handler.handle(&Some("!!!not base64!!!".to_string()));
    let resp = match step {
        Step::Respond(resp) => resp,
        Step::NeedDetect(_) => panic!("expected a response"),
    };
    assert_eq!(resp.status_code, 400);
    assert!(resp.body.contains("base64"));
}

#[test]
fn scenario_non_image_bytes_yield_unrecognized_format_400() {
    let mut handler = test_handler(ResponseMode::AnnotatedImage);
    let step = handler.handle(&Some(b64(b"not an image")));
    let resp = match step {
        Step::Respond(resp) => resp,
        Step::NeedDetect(_) => panic!("expected a response"),
    };
    assert_eq!(resp.status_code, 400);
    assert!(resp.body.contains("unrecognized image format"));
}

#[test]
fn scenario_truncated_image_yields_corrupt_400() {
    let mut handler = test_handler(ResponseMode::AnnotatedImage);
    let mut bytes = png_bytes(32, 32);
    bytes.truncate(24);
    let step = handler.handle(&Some(b64(&bytes)));
    let resp = match step {
        Step::Respond(resp) => resp,
        Step::NeedDetect(_) => panic!("expected a response"),
    };
    assert_eq!(resp.status_code, 400);
    assert!(resp.body.contains("corrupt image data"));
}

#[test]
fn scenario_oversize_image_yields_inference_400() {
    let config = ModelConfig::new(1, 8, 16, 400, 150, true, true).unwrap();
    let mut handler = Handler::new(config, ResponseMode::AnnotatedImage).unwrap();
    let step = handler.handle(&Some(b64(&png_bytes(32, 32))));
    let resp = match step {
        Step::Respond(resp) => resp,
        Step::NeedDetect(_) => panic!("expected a response"),
    };
    assert_eq!(resp.status_code, 400);
    assert!(resp.body.contains("inference"));
    assert!(!handler.is_busy());
}

#[test]
fn engine_failure_yields_500_naming_inference() {
    let mut handler = test_handler(ResponseMode::AnnotatedImage);
    let step = handler.handle(&Some(b64(&png_bytes(16, 16))));
    let img = match step {
        Step::NeedDetect(img) => img,
        Step::Respond(_) => panic!("expected a detect step"),
    };
    let resp = handler.respond(&img, DetectOutcome::EngineFailed);
    assert_eq!(resp.status_code, 500);
    assert!(resp.body.contains("inference failed"));
    assert!(!handler.is_busy());
}

#[test]
fn encoder_failure_yields_500_naming_encode() {
    let mut handler = test_handler(ResponseMode::AnnotatedImage);
    let step = handler.handle(&Some(b64(&png_bytes(16, 16))));
    match step {
        Step::NeedDetect(_) => {}
        Step::Respond(_) => panic!("expected a detect step"),
    }
    // A raster wider than the JPEG format can hold: annotation succeeds,
    // encoding cannot.
    let wide = DecodedImage::new(70000, 1, vec![0u8; 210000]).unwrap();
    let resp = handler.respond(&wide, DetectOutcome::Detections(Vec::new()));
    assert_eq!(resp.status_code, 500);
    assert!(resp.body.contains("encode failed"));
}

#[test]
fn encodable_raster_is_owed_a_200() {
    // The other side of the encoder's contract: dimensions inside the
    // JPEG format's range always encode, so success is owed.
    let mut handler = test_handler(ResponseMode::AnnotatedImage);
    let step = handler.handle(&Some(b64(&png_bytes(16, 16))));
    match step {
        Step::NeedDetect(_) => {}
        Step::Respond(_) => panic!("expected a detect step"),
    }
    let raster = DecodedImage::new(3, 2, vec![9u8; 18]).unwrap();
    let resp = handler.respond(&raster, DetectOutcome::Detections(Vec::new()));
    assert_eq!(resp.status_code, 200);
    assert_eq!(resp.content_type, "image/jpeg");
}

#[test]
fn zero_dimension_raster_cannot_encode_and_yields_500() {
    let mut handler = test_handler(ResponseMode::AnnotatedImage);
    let step = handler.handle(&Some(b64(&png_bytes(16, 16))));
    match step {
        Step::NeedDetect(_) => {}
        Step::Respond(_) => panic!("expected a detect step"),
    }
    let empty = DecodedImage::new(0, 0, Vec::new()).unwrap();
    let resp = handler.respond(&empty, DetectOutcome::Detections(Vec::new()));
    assert_eq!(resp.status_code, 500);
    assert!(resp.body.contains("encode failed"));
}

#[test]
fn status_text_mode_answers_with_plain_text() {
    let mut handler = test_handler(ResponseMode::StatusText);
    let step = handler.handle(&Some(b64(&png_bytes(16, 16))));
    let img = match step {
        Step::NeedDetect(img) => img,
        Step::Respond(_) => panic!("expected a detect step"),
    };
    let resp = handler.respond(&img, DetectOutcome::Detections(vec![sample_detection(1, 1, 4, 4)]));
    assert_eq!(resp.status_code, 200);
    assert_eq!(resp.content_type, "text/plain");
    assert_eq!(resp.body, "detection complete");
    assert!(!resp.is_base64_encoded);
}

#[test]
fn scenario_two_sequential_invocations_are_independent() {
    let mut handler = test_handler(ResponseMode::AnnotatedImage);

    let body_a = Some(b64(&jpeg_bytes(40, 40)));
    let step_a = handler.handle(&body_a);
    let img_a = match step_a {
        Step::NeedDetect(img) => img,
        Step::Respond(_) => panic!("expected a detect step"),
    };
    let resp_a = handler.respond(&img_a, DetectOutcome::Detections(vec![sample_detection(2, 2, 10, 10)]));

    let body_b = Some(b64(&jpeg_bytes(48, 24)));
    let step_b = handler.handle(&body_b);
    let img_b = match step_b {
        Step::NeedDetect(img) => img,
        Step::Respond(_) => panic!("expected a detect step"),
    };
    let resp_b = handler.respond(&img_b, DetectOutcome::Detections(Vec::new()));

    assert_eq!(resp_a.status_code, 200);
    assert_eq!(resp_b.status_code, 200);
    assert_ne!(resp_a.body, resp_b.body);
    let out_b = base64::engine::general_purpose::STANDARD
        .decode(&resp_b.body)
        .unwrap();
    let decoded_b = image::ImageReader::new(Cursor::new(out_b))
        .with_guessed_format()
        .unwrap()
        .decode()
        .unwrap();
    assert_eq!((decoded_b.width(), decoded_b.height()), (48, 24));
}

#[test]
fn manager_never_grants_a_second_permit() {
    let mut manager = ModelManager::new(small_config());
    assert!(!manager.is_busy());
    assert!(manager.try_acquire());
    assert!(manager.is_busy());
    assert!(!manager.try_acquire());
    assert!(manager.is_busy());
    manager.release();
    assert!(!manager.is_busy());
    assert!(manager.try_acquire());
}

#[test]
fn handler_stays_busy_between_handle_and_respond() {
    let mut handler = test_handler(ResponseMode::AnnotatedImage);
    assert!(!handler.is_busy());
    let step = handler.handle(&Some(b64(&png_bytes(16, 16))));
    let img = match step {
        Step::NeedDetect(img) => img,
        Step::Respond(_) => panic!("expected a detect step"),
    };
    assert!(handler.is_busy());
    handler.respond(&img, DetectOutcome::Detections(Vec::new()));
    assert!(!handler.is_busy());
}

#[test]
fn invalid_configuration_is_rejected_at_startup() {
    assert_eq!(
        ModelConfig::new(0, 8, 16, 400, 150, true, true),
        Err(ModelLoadError::InvalidConfig)
    );
    assert_eq!(
        ModelConfig::new(16, 8, 32, 400, 150, true, true),
        Err(ModelLoadError::InvalidConfig)
    );
    assert_eq!(
        ModelConfig::new(8, 16, 32, 1500, 150, true, true),
        Err(ModelLoadError::InvalidConfig)
    );
    let bad = ModelConfig {
        min_dim: 8,
        opt_dim: 4,
        max_dim: 32,
        first_conf_permille: 400,
        second_conf_permille: 150,
        use_fp16: true,
        cpu_only: true,
    };
    assert!(Handler::new(bad, ResponseMode::AnnotatedImage).is_err());
}

#[test]
fn standard_configuration_matches_the_deployment_values() {
    let c = ModelConfig::standard();
    assert_eq!(c.min_dim, 416);
    assert_eq!(c.opt_dim, 640);
    assert_eq!(c.max_dim, 800);
    assert_eq!(c.first_conf_permille, 400);
    assert_eq!(c.second_conf_permille, 150);
    assert!(c.use_fp16);
    assert!(c.cpu_only);
}

#[test]
fn extract_round_trips_encoded_bytes() {
    let bytes = vec![0u8, 1, 2, 250, 251, 252, 253, 254, 255];
    let back = extracted_body_round_trips(&bytes).unwrap();
    assert_eq!(back, bytes);
}

#[test]
fn extract_body_decodes_known_base64() {
    let out = extract_body(&Some("YWJj".to_string())).unwrap();
    assert_eq!(out, b"abc".to_vec());
}

#[test]
fn extract_then_decode_round_trips_a_png_raster() {
    let original = sample_raster(24, 17);
    let body = Some(b64(&png_bytes(24, 17)));
    let img = extract_image_from_body(&body).unwrap();
    assert_eq!(img.width, 24);
    assert_eq!(img.height, 17);
    assert_eq!(img.pixels, original.into_raw());
}

#[test]
fn success_response_wraps_base64_of_the_bytes() {
    let bytes = vec![10u8, 20, 30, 40];
    let resp = build_success_response(&bytes);
    assert_eq!(resp.status_code, 200);
    assert_eq!(resp.content_type, "image/jpeg");
    assert!(resp.is_base64_encoded);
    assert_eq!(resp.body, b64(&bytes));
    assert_ne!(resp.body.as_bytes(), &bytes[..]);
    let decoded = base64::engine::general_purpose::STANDARD
        .decode(&resp.body)
        .unwrap();
    assert_eq!(decoded, bytes);
}
