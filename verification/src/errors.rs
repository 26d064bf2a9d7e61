//! The closed set of failures that the engine can report.
//!
//! Every failure of model loading, engine assembly, image ingestion or text
//! extraction is classified into exactly one [`ErrorKind`] and carries one
//! human-readable message that embeds the collaborator's own report verbatim.

use vstd::prelude::*;
use vstd::string::StringExecFns;

verus! {

/// The stage at which an operation failed.  Each failure is attributable to
/// exactly one of these; callers discriminate on it.
#[derive(Clone, Copy, Debug, PartialEq, Eq, Structural)]
pub enum ErrorKind {
    /// The detection model file was missing, corrupt or unreadable.
    DetectionModelLoad,
    /// The recognition model file was missing, corrupt or unreadable.
    RecognitionModelLoad,
    /// Both models loaded but the pipeline could not be assembled from them.
    EngineConstruction,
    /// The input image file was missing, corrupt or of an unsupported format.
    ImageDecode,
    /// The decoded image could not be adapted to the pipeline's input form.
    InputPreparation,
    /// The pipeline failed while detecting or recognizing text.
    TextExtraction,
}

/// A classified failure: one stage, one message.
#[derive(Debug)]
pub struct OcrError {
    pub kind: ErrorKind,
    pub message: String,
}

/// The message reported when the detection model at `path` failed to load
/// with the loader's report `cause`.
pub open spec fn detection_load_message(path: Seq<char>, cause: Seq<char>) -> Seq<char> {
    "Failed to load detection model from "@ + path + ": "@ + cause
}

/// The message reported when the recognition model at `path` failed to load
/// with the loader's report `cause`.
pub open spec fn recognition_load_message(path: Seq<char>, cause: Seq<char>) -> Seq<char> {
    "Failed to load recognition model from "@ + path + ": "@ + cause
}

/// The message reported when engine assembly failed with report `cause`.
pub open spec fn construction_message(cause: Seq<char>) -> Seq<char> {
    "OCR Engine construction error: "@ + cause
}

/// The message reported when the image at `path` could not be decoded and the
/// codec reported `cause`.
pub open spec fn decode_message(path: Seq<char>, cause: Seq<char>) -> Seq<char> {
    "Failed to open image "@ + path + ": "@ + cause
}

/// The message reported when the decoded pixels could not be adapted into a
/// pipeline image source.
pub open spec fn adapt_message(cause: Seq<char>) -> Seq<char> {
    "Failed to process image: "@ + cause
}

/// The message reported when the engine's input-preparation step failed.
pub open spec fn prepare_message(cause: Seq<char>) -> Seq<char> {
    "Failed to prepare input: "@ + cause
}

/// The message reported when detection or recognition failed.
pub open spec fn extraction_message(cause: Seq<char>) -> Seq<char> {
    "Failed to recognize text: "@ + cause
}

/// `e` reports a detection-model load failure for the model at `path`.
pub open spec fn is_detection_load_failure(e: OcrError, path: Seq<char>) -> bool {
    &&& e.kind == ErrorKind::DetectionModelLoad
    &&& exists|cause: Seq<char>| e.message@ == detection_load_message(path, cause)
}

/// `e` reports a recognition-model load failure for the model at `path`.
pub open spec fn is_recognition_load_failure(e: OcrError, path: Seq<char>) -> bool {
    &&& e.kind == ErrorKind::RecognitionModelLoad
    &&& exists|cause: Seq<char>| e.message@ == recognition_load_message(path, cause)
}

/// `e` reports that the two loaded models could not be assembled.
pub open spec fn is_construction_failure(e: OcrError) -> bool {
    &&& e.kind == ErrorKind::EngineConstruction
    &&& exists|cause: Seq<char>| e.message@ == construction_message(cause)
}

/// `e` reports that the image at `path` could not be decoded.
pub open spec fn is_decode_failure(e: OcrError, path: Seq<char>) -> bool {
    &&& e.kind == ErrorKind::ImageDecode
    &&& exists|cause: Seq<char>| e.message@ == decode_message(path, cause)
}

/// `e` reports that the decoded image could not be adapted.
pub open spec fn is_adapt_failure(e: OcrError) -> bool {
    &&& e.kind == ErrorKind::InputPreparation
    &&& exists|cause: Seq<char>| e.message@ == adapt_message(cause)
}

/// `e` reports that the engine's input-preparation step failed.
pub open spec fn is_prepare_failure(e: OcrError) -> bool {
    &&& e.kind == ErrorKind::InputPreparation
    &&& exists|cause: Seq<char>| e.message@ == prepare_message(cause)
}

/// `e` reports that detection or recognition failed.
pub open spec fn is_extraction_failure(e: OcrError) -> bool {
    &&& e.kind == ErrorKind::TextExtraction
    &&& exists|cause: Seq<char>| e.message@ == extraction_message(cause)
}

/// Builds `prefix + subject + ": " + cause`, the common message shape.
fn compose_subject_message(prefix: &str, subject: &str, cause: &str) -> (m: String)
    ensures
        m@ == prefix@ + subject@ + ": "@ + cause@,
{
    let mut m: String = prefix.to_owned();
    m.append(subject);
    m.append(": ");
    m.append(cause);
    m
}

/// Builds `prefix + cause`, the message shape of stages with no subject path.
fn compose_plain_message(prefix: &str, cause: &str) -> (m: String)
    ensures
        m@ == prefix@ + cause@,
{
    let mut m: String = prefix.to_owned();
    m.append(cause);
    m
}

pub fn detection_load_error(path: &str, cause: &str) -> (e: OcrError)
    ensures
        e.kind == ErrorKind::DetectionModelLoad,
        e.message@ == detection_load_message(path@, cause@),
        is_detection_load_failure(e, path@),
{
    let message = compose_subject_message("Failed to load detection model from ", path, cause);
    OcrError { kind: ErrorKind::DetectionModelLoad, message }
}

pub fn recognition_load_error(path: &str, cause: &str) -> (e: OcrError)
    ensures
        e.kind == ErrorKind::RecognitionModelLoad,
        e.message@ == recognition_load_message(path@, cause@),
        is_recognition_load_failure(e, path@),
{
    let message = compose_subject_message("Failed to load recognition model from ", path, cause);
    OcrError { kind: ErrorKind::RecognitionModelLoad, message }
}

pub fn construction_error(cause: &str) -> (e: OcrError)
    ensures
        e.kind == ErrorKind::EngineConstruction,
        e.message@ == construction_message(cause@),
        is_construction_failure(e),
{
    let message = compose_plain_message("OCR Engine construction error: ", cause);
    OcrError { kind: ErrorKind::EngineConstruction, message }
}

pub fn decode_error(path: &str, cause: &str) -> (e: OcrError)
    ensures
        e.kind == ErrorKind::ImageDecode,
        e.message@ == decode_message(path@, cause@),
        is_decode_failure(e, path@),
{
    let message = compose_subject_message("Failed to open image ", path, cause);
    OcrError { kind: ErrorKind::ImageDecode, message }
}

pub fn adapt_error(cause: &str) -> (e: OcrError)
    ensures
        e.kind == ErrorKind::InputPreparation,
        e.message@ == adapt_message(cause@),
        is_adapt_failure(e),
{
    let message = compose_plain_message("Failed to process image: ", cause);
    OcrError { kind: ErrorKind::InputPreparation, message }
}

pub fn prepare_error(cause: &str) -> (e: OcrError)
    ensures
        e.kind == ErrorKind::InputPreparation,
        e.message@ == prepare_message(cause@),
        is_prepare_failure(e),
{
    let message = compose_plain_message("Failed to prepare input: ", cause);
    OcrError { kind: ErrorKind::InputPreparation, message }
}

pub fn extraction_error(cause: &str) -> (e: OcrError)
    ensures
        e.kind == ErrorKind::TextExtraction,
        e.message@ == extraction_message(cause@),
        is_extraction_failure(e),
{
    let message = compose_plain_message("Failed to recognize text: ", cause);
    OcrError { kind: ErrorKind::TextExtraction, message }
}

/// `needle` occurs in `hay` as a contiguous run of characters.
pub open spec fn contains_seq(hay: Seq<char>, needle: Seq<char>) -> bool {
    exists|i: int|
        0 <= i && i + needle.len() <= hay.len() && #[trigger] hay.subrange(i, i + needle.len())
            == needle
}

/// The common message shape `prefix + subject + ": " + cause` embeds the
/// subject as a contiguous run.
proof fn lemma_subject_message_embeds_subject(prefix: Seq<char>, subject: Seq<char>, cause: Seq<char>)
    ensures
        contains_seq(prefix + subject + ": "@ + cause, subject),
{
    let hay = prefix + subject + ": "@ + cause;
    assert(hay.subrange(prefix.len() as int, (prefix.len() + subject.len()) as int) =~= subject);
}

/// Law: a detection-model load failure's message names the offending path.
pub proof fn lemma_detection_load_failure_names_path(e: OcrError, path: Seq<char>)
    requires
        is_detection_load_failure(e, path),
    ensures
        contains_seq(e.message@, path),
{
    let cause = choose|c: Seq<char>| e.message@ == detection_load_message(path, c);
    lemma_subject_message_embeds_subject("Failed to load detection model from "@, path, cause);
}

/// Law: a recognition-model load failure's message names the offending path.
pub proof fn lemma_recognition_load_failure_names_path(e: OcrError, path: Seq<char>)
    requires
        is_recognition_load_failure(e, path),
    ensures
        contains_seq(e.message@, path),
{
    let cause = choose|c: Seq<char>| e.message@ == recognition_load_message(path, c);
    lemma_subject_message_embeds_subject("Failed to load recognition model from "@, path, cause);
}

/// Law: an image-decode failure's message names the path of the image file.
pub proof fn lemma_decode_failure_names_path(e: OcrError, path: Seq<char>)
    requires
        is_decode_failure(e, path),
    ensures
        contains_seq(e.message@, path),
{
    let cause = choose|c: Seq<char>| e.message@ == decode_message(path, c);
    lemma_subject_message_embeds_subject("Failed to open image "@, path, cause);
}

/// `hay` ends with the run of characters `suffix`.
pub open spec fn ends_with(hay: Seq<char>, suffix: Seq<char>) -> bool {
    &&& hay.len() >= suffix.len()
    &&& hay.subrange(hay.len() - suffix.len(), hay.len() as int) == suffix
}

/// A concatenation ends with its right operand.
proof fn lemma_concat_ends_with(a: Seq<char>, b: Seq<char>)
    ensures
        ends_with(a + b, b),
{
    assert((a + b).subrange(a.len() as int, (a + b).len() as int) =~= b);
}

/// Law: every classified failure's message preserves the collaborator's
/// report verbatim, as its final run of characters.
pub proof fn lemma_messages_preserve_cause(path: Seq<char>, cause: Seq<char>)
    ensures
        ends_with(detection_load_message(path, cause), cause),
        ends_with(recognition_load_message(path, cause), cause),
        ends_with(construction_message(cause), cause),
        ends_with(decode_message(path, cause), cause),
        ends_with(adapt_message(cause), cause),
        ends_with(prepare_message(cause), cause),
        ends_with(extraction_message(cause), cause),
{
    lemma_concat_ends_with("Failed to load detection model from "@ + path + ": "@, cause);
    lemma_concat_ends_with("Failed to load recognition model from "@ + path + ": "@, cause);
    lemma_concat_ends_with("OCR Engine construction error: "@, cause);
    lemma_concat_ends_with("Failed to open image "@ + path + ": "@, cause);
    lemma_concat_ends_with("Failed to process image: "@, cause);
    lemma_concat_ends_with("Failed to prepare input: "@, cause);
    lemma_concat_ends_with("Failed to recognize text: "@, cause);
}

/// Law: the two failures that share the input-preparation kind — the
/// adaptation of the decoded pixels, and the engine's own input-preparation
/// step — are still never the same error: their messages differ in a fixed
/// prefix, so each failure is attributable to exactly one stage.
pub proof fn lemma_adapt_prepare_failures_distinct(e: OcrError)
    ensures
        !(is_adapt_failure(e) && is_prepare_failure(e)),
{
    if is_adapt_failure(e) && is_prepare_failure(e) {
        let c1 = choose|c: Seq<char>| e.message@ == adapt_message(c);
        let c2 = choose|c: Seq<char>| e.message@ == prepare_message(c);
        reveal_strlit("Failed to process image: ");
        reveal_strlit("Failed to prepare input: ");
        assert(e.message@[12] == 'o');
        assert(e.message@[12] == 'e');
    }
}

impl OcrError {
    /// The stage at which the reported operation failed.
    pub fn kind(&self) -> (k: ErrorKind)
        ensures
            k == self.kind,
    {
        self.kind
    }

    /// The human-readable report, for the host to display.
    pub fn message(&self) -> (m: &str)
        ensures
            m@ == self.message@,
    {
        self.message.as_str()
    }
}

} // verus!

