use ocr_facade::engine::{
    detection_input_shape_supported, recognition_input_shape_supported, OcrEngineFacade,
};
use ocr_facade::errors::{
    adapt_error, construction_error, decode_error, detection_load_error, extraction_error,
    prepare_error, recognition_load_error, ErrorKind,
};
use ocr_facade::ingest::{adapt_image, decode_image_file, RawImage};

#[test]
fn detection_load_error_message_and_kind() {
    let e = detection_load_error("/models/det.rten", "boom");
    assert_eq!(e.kind, ErrorKind::DetectionModelLoad);
    assert_eq!(e.message, "Failed to load detection model from /models/det.rten: boom");
}

#[test]
fn recognition_load_error_message_and_kind() {
    let e = recognition_load_error("/models/rec.rten", "boom");
    assert_eq!(e.kind, ErrorKind::RecognitionModelLoad);
    assert_eq!(e.message, "Failed to load recognition model from /models/rec.rten: boom");
}

#[test]
fn construction_error_message_and_kind() {
    let e = construction_error("incompatible models");
    assert_eq!(e.kind, ErrorKind::EngineConstruction);
    assert_eq!(e.message, "OCR Engine construction error: incompatible models");
}

#[test]
fn decode_error_message_and_kind() {
    let e = decode_error("photo.png", "bad header");
    assert_eq!(e.kind, ErrorKind::ImageDecode);
    assert_eq!(e.message, "Failed to open image photo.png: bad header");
}

#[test]
fn adapt_error_message_and_kind() {
    let e = adapt_error("channel count is not 1, 3 or 4");
    assert_eq!(e.kind, ErrorKind::InputPreparation);
    assert_eq!(e.message, "Failed to process image: channel count is not 1, 3 or 4");
}

#[test]
fn prepare_error_message_and_kind() {
    let e = prepare_error("shape mismatch");
    assert_eq!(e.kind, ErrorKind::InputPreparation);
    assert_eq!(e.message, "Failed to prepare input: shape mismatch");
}

#[test]
fn extraction_error_message_and_kind() {
    let e = extraction_error("inference failed");
    assert_eq!(e.kind, ErrorKind::TextExtraction);
    assert_eq!(e.message, "Failed to recognize text: inference failed");
}

#[test]
fn error_accessors_match_fields() {
    let e = extraction_error("x");
    assert_eq!(e.kind(), e.kind);
    assert_eq!(e.message(), e.message.as_str());
}

#[test]
fn construction_fails_on_missing_detection_model() {
    let r = OcrEngineFacade::new("/no/such/detection.rten", "/no/such/recognition.rten");
    let e = match r {
        Ok(_) => panic!("construction succeeded without model files"),
        Err(e) => e,
    };
    // The first (detection) load fails, so the recognition path is never
    // reached: the reported kind must be the detection one.
    assert_eq!(e.kind, ErrorKind::DetectionModelLoad);
    assert!(e.message.starts_with("Failed to load detection model from /no/such/detection.rten: "));
    assert!(e.message.contains("/no/such/detection.rten"));
}

#[test]
fn decode_fails_on_missing_image_file() {
    let r = decode_image_file("/no/such/image.png");
    let e = match r {
        Ok(_) => panic!("decoding a nonexistent file succeeded"),
        Err(e) => e,
    };
    assert_eq!(e.kind, ErrorKind::ImageDecode);
    assert!(e.message.starts_with("Failed to open image /no/such/image.png: "));
    assert!(e.message.contains("/no/such/image.png"));
}

#[test]
fn decode_fails_on_empty_non_image_file() {
    // An empty file is not any recognizable image format; the failure must
    // still be a classified decode error, not anything unclassified.
    let r = decode_image_file("/dev/null");
    let e = match r {
        Ok(_) => panic!("decoding an empty file succeeded"),
        Err(e) => e,
    };
    assert_eq!(e.kind, ErrorKind::ImageDecode);
    assert!(e.message.starts_with("Failed to open image /dev/null: "));
}

#[test]
fn adapt_accepts_one_pixel_image() {
    let img = RawImage { width: 1, height: 1, pixels: vec![10, 20, 30] };
    let r = adapt_image(&img);
    assert!(r.is_ok());
}

#[test]
fn adapt_rejects_zero_sized_image() {
    let img = RawImage { width: 0, height: 0, pixels: vec![] };
    let r = adapt_image(&img);
    let e = match r {
        Ok(_) => panic!("a zero-sized image was adapted"),
        Err(e) => e,
    };
    assert_eq!(e.kind, ErrorKind::InputPreparation);
    assert_eq!(e.message, "Failed to process image: channel count is not 1, 3 or 4");
}

#[test]
fn adapt_rejects_zero_width_image() {
    let img = RawImage { width: 0, height: 4, pixels: vec![] };
    let r = adapt_image(&img);
    let e = match r {
        Ok(_) => panic!("a zero-width image was adapted"),
        Err(e) => e,
    };
    assert_eq!(e.kind, ErrorKind::InputPreparation);
    assert_eq!(e.message, "Failed to process image: channel count is not 1, 3 or 4");
}

#[test]
fn error_kinds_are_distinguishable() {
    assert_ne!(ErrorKind::DetectionModelLoad, ErrorKind::RecognitionModelLoad);
    assert_ne!(ErrorKind::EngineConstruction, ErrorKind::ImageDecode);
    assert_ne!(ErrorKind::InputPreparation, ErrorKind::TextExtraction);
}

#[test]
fn detection_shape_gate_accepts_fixed_plane() {
    assert!(detection_input_shape_supported(&Some(vec![None, Some(1usize), Some(800), Some(600)])));
    // An absent declared shape is left to the assembler's own rejection.
    assert!(detection_input_shape_supported(&None));
}

#[test]
fn detection_shape_gate_rejects_unusable_shapes() {
    // Wrong rank.
    assert!(!detection_input_shape_supported(&Some(vec![None, Some(1usize), Some(800)])));
    assert!(!detection_input_shape_supported(&Some(vec![
        None,
        Some(1usize),
        Some(800),
        Some(600),
        Some(3)
    ])));
    // Symbolic height or width.
    assert!(!detection_input_shape_supported(&Some(vec![None, Some(1usize), None, Some(600)])));
    assert!(!detection_input_shape_supported(&Some(vec![None, Some(1usize), Some(800), None])));
}

#[test]
fn recognition_shape_gate_accepts_rank_three_and_symbolic_height() {
    assert!(recognition_input_shape_supported(&Some(vec![None, Some(1usize), Some(64)])));
    assert!(recognition_input_shape_supported(&Some(vec![None, Some(1usize), None, None])));
    assert!(recognition_input_shape_supported(&None));
}

#[test]
fn recognition_shape_gate_rejects_low_rank_and_oversized_height() {
    assert!(!recognition_input_shape_supported(&Some(vec![])));
    assert!(!recognition_input_shape_supported(&Some(vec![None, Some(1usize)])));
    let oversized: usize = (u32::MAX as usize) + 1;
    assert!(!recognition_input_shape_supported(&Some(vec![None, Some(1usize), Some(oversized)])));
}
