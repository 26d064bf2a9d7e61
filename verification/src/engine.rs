//! The engine facade: loading the two model files, assembling the pipeline
//! once, and running it on decoded images.
//!
//! Loading is fail-fast: the detection model is attempted first, and a
//! failure there returns before the recognition file is touched.  A
//! detection model already loaded when the recognition load fails is
//! dropped, never retained in a half-built engine.  The assembled engine is
//! immutable; processing an image never writes engine state.

use vstd::prelude::*;
use crate::errors::{
    adapt_message, construction_error, detection_load_error, extraction_error, is_adapt_failure,
    is_construction_failure, is_decode_failure, is_detection_load_failure, is_extraction_failure,
    is_recognition_load_failure, prepare_error, recognition_load_error, OcrError,
};
use crate::ingest::{adapt_image, decode_image_file, unsupported_channel_count_cause};

verus! {

#[verifier::external_type_specification]
#[verifier::external_body]
pub struct ExModel(rten::Model);

#[verifier::external_type_specification]
#[verifier::external_body]
pub struct ExOcrEngine(ocrs::OcrEngine);

#[verifier::external_type_specification]
#[verifier::external_body]
pub struct ExOcrInput(ocrs::OcrInput);

/// Relies on `rten::Model::load_file`: it reads the file at `path` and
/// parses it into an in-memory model, or reports why it could not.  Whether
/// it succeeds depends on what is on disk, so nothing is promised of the
/// outcome.  Assumed of the parser besides: a file it accepts is internally
/// consistent — a structurally valid model file whose stored constants
/// contradict their declared shapes makes the loader abort instead of
/// reporting an error.
#[verifier::external_body]
fn load_model_file(path: &str) -> (r: Result<rten::Model, String>) {
    rten::Model::load_file(path).map_err(|e| format!("{}", e))
}

/// Relies on `rten::Model::input_ids` and `rten::Model::node_info`: the
/// shape the model declares for its first input, each dimension either
/// fixed (`Some`) or symbolic (`None`); `None` when the model declares no
/// input or no shape for it.  The result is read from the model value
/// alone, but the model is opaque here, so nothing is promised of it.
#[verifier::external_body]
fn model_input_dims(model: &rten::Model) -> (r: Option<Vec<Option<usize>>>) {
    let id = model.input_ids().first().copied()?;
    let shape = model.node_info(id).and_then(|info| info.shape())?;
    Some(
        shape.into_iter().map(
            |dim|
                match dim {
                    rten::Dimension::Fixed(size) => Some(size),
                    rten::Dimension::Symbolic(_) => None,
                },
        ).collect(),
    )
}

/// `opt_dims_view(model_input_dims(..))`: the declared input shape as a
/// sequence of fixed (`Some`) or symbolic (`None`) dimensions, if any.
pub open spec fn opt_dims_view(dims: Option<Vec<Option<usize>>>) -> Option<Seq<Option<usize>>> {
    match dims {
        Some(v) => Some(v@),
        None => None,
    }
}

/// A declared input shape the text-detection stage can run on: rank 4 with
/// fixed height and width (an absent shape is left to the assembler, which
/// rejects it with its own report).
pub open spec fn spec_detection_shape_supported(dims: Option<Seq<Option<usize>>>) -> bool {
    match dims {
        Some(d) => d.len() == 4 && d[2] is Some && d[3] is Some,
        None => true,
    }
}

/// A declared input shape the text-recognition stage can run on: at least
/// rank 3, with any fixed line-height dimension within `u32` (an absent
/// shape is left to the assembler, which rejects it with its own report).
pub open spec fn spec_recognition_shape_supported(dims: Option<Seq<Option<usize>>>) -> bool {
    match dims {
        Some(d) => d.len() >= 3 && (d[2] matches Some(h) ==> h <= u32::MAX),
        None => true,
    }
}

/// Decides `spec_detection_shape_supported` on a declared input shape.
pub fn detection_input_shape_supported(dims: &Option<Vec<Option<usize>>>) -> (ok: bool)
    ensures
        ok == spec_detection_shape_supported(opt_dims_view(*dims)),
{
    match dims {
        None => true,
        Some(v) => {
            if v.len() != 4 {
                false
            } else {
                v[2].is_some() && v[3].is_some()
            }
        },
    }
}

/// Decides `spec_recognition_shape_supported` on a declared input shape.
pub fn recognition_input_shape_supported(dims: &Option<Vec<Option<usize>>>) -> (ok: bool)
    ensures
        ok == spec_recognition_shape_supported(opt_dims_view(*dims)),
{
    match dims {
        None => true,
        Some(v) => {
            if v.len() < 3 {
                false
            } else {
                match v[2] {
                    Some(h) => h <= u32::MAX as usize,
                    None => true,
                }
            }
        },
    }
}

/// Relies on `ocrs::OcrEngine::new`: it assembles the pipeline from the two
/// models under the default configuration, or reports why the models do not
/// fit it.  Nothing is promised of the outcome.
#[verifier::external_body]
fn build_engine(detection_model: rten::Model, recognition_model: rten::Model) -> (r: Result<
    ocrs::OcrEngine,
    String,
>) {
    ocrs::OcrEngine::new(
        ocrs::OcrEngineParams {
            detection_model: Some(detection_model),
            recognition_model: Some(recognition_model),
            ..Default::default()
        },
    ).map_err(|e| format!("{}", e))
}

/// Relies on `ocrs::OcrEngine::prepare_input`: it normalizes the pixels of
/// the source into the pipeline's input tensor and always succeeds on a
/// source that `ocrs::ImageSource::from_bytes` accepted.
#[verifier::external_body]
fn prepare_engine_input<'a>(engine: &ocrs::OcrEngine, source: ocrs::ImageSource<'a>) -> (r: Result<
    ocrs::OcrInput,
    String,
>)
    ensures
        r is Ok,
{
    engine.prepare_input(source).map_err(|e| format!("{}", e))
}

/// Relies on `ocrs::OcrEngine::get_text`: it runs text detection, layout
/// analysis and recognition on the prepared input and flattens the lines
/// into one string.  What it returns depends on the loaded models, so
/// nothing is promised of the outcome.  Assumed of the pipeline besides:
/// the models' run-time output shapes are the ones it lays inputs out for
/// — the declared input shapes are gated before assembly (see
/// `OcrEngineFacade::new`), but a model whose outputs come back in another
/// shape makes the pipeline abort instead of reporting an error.
#[verifier::external_body]
fn engine_get_text(engine: &ocrs::OcrEngine, input: &ocrs::OcrInput) -> (r: Result<
    String,
    String,
>) {
    engine.get_text(input).map_err(|e| format!("{}", e))
}

/// A ready-to-run recognition pipeline.  Built once from the two model
/// files; immutable afterwards, so it may be invoked any number of times.
pub struct OcrEngineFacade {
    engine: ocrs::OcrEngine,
}

impl OcrEngineFacade {
    /// Builds an engine from a detection model file and a recognition model
    /// file.  The detection model is loaded first; if that fails, the
    /// recognition file is never touched.  Two loaded models whose declared
    /// input shapes the pipeline could not run on — shapes it would only
    /// trip over during later calls — are rejected here as a construction
    /// failure, so a constructed engine's calls fail only with the
    /// pipeline's own reports.  Every failure is classified: a load failure
    /// names the offending path and the loader's report, a construction
    /// failure carries the reason assembly was refused.
    pub fn new(detection_model_path: &str, rec_model_path: &str) -> (r: Result<
        OcrEngineFacade,
        OcrError,
    >)
        ensures
            r matches Err(e) ==> is_detection_load_failure(e, detection_model_path@)
                || is_recognition_load_failure(e, rec_model_path@) || is_construction_failure(e),
    {
        let detection_model = match load_model_file(detection_model_path) {
            Ok(model) => model,
            Err(cause) => {
                return Err(detection_load_error(detection_model_path, cause.as_str()));
            },
        };
        let recognition_model = match load_model_file(rec_model_path) {
            Ok(model) => model,
            Err(cause) => {
                return Err(recognition_load_error(rec_model_path, cause.as_str()));
            },
        };
        let detection_dims = model_input_dims(&detection_model);
        if !detection_input_shape_supported(&detection_dims) {
            return Err(
                construction_error(
                    "detection model input shape must be [batch, channels, height, width] with fixed height and width",
                ),
            );
        }
        let recognition_dims = model_input_dims(&recognition_model);
        if !recognition_input_shape_supported(&recognition_dims) {
            return Err(
                construction_error(
                    "recognition model input shape must have at least 3 dimensions and an in-range height",
                ),
            );
        }
        match build_engine(detection_model, recognition_model) {
            Ok(engine) => Ok(OcrEngineFacade { engine }),
            Err(cause) => Err(construction_error(cause.as_str())),
        }
    }

    /// Recognizes the text in the image file at `path`.  Each call is
    /// independent and reads the engine only.  The result is either the
    /// recognized text or a classified failure: a decode failure names the
    /// path, an adaptation failure is exactly the zero-sized-image report,
    /// and an extraction failure carries the pipeline's report.
    pub fn process_image(&self, image_path: &str) -> (r: Result<String, OcrError>)
        ensures
            r matches Err(e) ==> is_decode_failure(e, image_path@) || (is_adapt_failure(e)
                && e.message@ == adapt_message(unsupported_channel_count_cause()))
                || is_extraction_failure(e),
    {
        let raw = match decode_image_file(image_path) {
            Ok(img) => img,
            Err(e) => {
                return Err(e);
            },
        };
        let source = match adapt_image(&raw) {
            Ok(source) => source,
            Err(e) => {
                return Err(e);
            },
        };
        // prepare_engine_input promises success on every adapted source, so
        // this stage's failure arm is unreachable under the current pipeline
        // contract; it keeps its classification should that contract widen.
        let ocr_input = match prepare_engine_input(&self.engine, source) {
            Ok(input) => input,
            Err(cause) => {
                return Err(prepare_error(cause.as_str()));
            },
        };
        match engine_get_text(&self.engine, &ocr_input) {
            Ok(text) => Ok(text),
            Err(cause) => Err(extraction_error(cause.as_str())),
        }
    }
}

} // verus!
