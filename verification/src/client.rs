//! The transcription pipeline: resolve a file reference, download the bytes,
//! upload them to the transcription service, and read the answer.
//!
//! The network calls themselves happen outside this crate; the pipeline is
//! driven as a state machine. Each step takes the current state and the
//! outcome of the one outside call that state was waiting for, and decides the
//! next state, down to the finished outcome that the router turns into a
//! reply.

use vstd::prelude::*;

verus! {

/// The transcript decoded from the service's answer. The wire format carries
/// richer per-segment fields beside `text`; only `text` is consumed.
pub struct TranscriptResult {
    pub text: String,
}

/// Why a transcription attempt failed.
#[derive(Debug)]
pub enum TranscribeError {
    /// The platform's file-metadata call failed.
    FileResolution,
    /// Fetching the file bytes from the platform failed.
    Download,
    /// Posting the upload to the transcription service failed.
    Upload,
    /// The service answered with an error status; its response body, read as
    /// text, is kept as detail.
    Service { detail: String },
    /// The service's answer was not JSON of the expected shape.
    Decode,
}

/// Status codes the client treats as a service failure: the client-error and
/// server-error classes.
pub open spec fn is_error_status(status: u16) -> bool {
    400 <= status < 600
}

/// The characters that `bytes` decode to as UTF-8, invalid sequences
/// replaced.
pub uninterp spec fn utf8_lossy_of(bytes: Seq<u8>) -> Seq<char>;

/// Relies on `String::from_utf8_lossy`: the decoding, with each invalid
/// sequence replaced by the replacement character, depends on the bytes
/// alone.
#[verifier::external_body]
fn utf8_lossy(bytes: &Vec<u8>) -> (r: String)
    ensures
        r@ == utf8_lossy_of(bytes@),
{
    String::from_utf8_lossy(bytes.as_slice()).into_owned()
}

/// The `text` field of `body` read as a JSON object, if `body` is a JSON
/// object whose `text` member is a string.
pub uninterp spec fn transcript_text_of(body: Seq<u8>) -> Option<Seq<char>>;

/// Relies on `serde_json::from_slice` and `serde_json::Value::get`: whether
/// the bytes parse as JSON, and what string the `text` member holds, depend
/// on the bytes alone.
#[verifier::external_body]
fn decode_transcript_text(body: &Vec<u8>) -> (r: Option<String>)
    ensures
        r is Some <==> transcript_text_of(body@) is Some,
        r matches Some(t) ==> transcript_text_of(body@) == Some(t@),
{
    match serde_json::from_slice::<serde_json::Value>(body.as_slice()) {
        Ok(v) => match v.get("text") {
            Some(serde_json::Value::String(t)) => Some(t.clone()),
            _ => None,
        },
        Err(_) => None,
    }
}

/// What the finished outcome for a service answer `(status, body)` must be:
/// an error status fails with the body text as detail; a success status
/// yields the decoded transcript, or the decode error where the body is not
/// JSON of the expected shape.
pub open spec fn classified(status: u16, body: Seq<u8>, r: Result<
    TranscriptResult,
    TranscribeError,
>) -> bool {
    if is_error_status(status) {
        r matches Err(TranscribeError::Service { detail }) && detail@ == utf8_lossy_of(body)
    } else {
        match transcript_text_of(body) {
            Some(t) => r matches Ok(res) && res.text@ == t,
            None => r matches Err(e) && e is Decode,
        }
    }
}

/// Turns the transcription service's answer into the finished outcome, as
/// [`classified`] states.
pub fn classify_response(status: u16, body: Vec<u8>) -> (r: Result<
    TranscriptResult,
    TranscribeError,
>)
    ensures
        classified(status, body@, r),
{
    if 400 <= status && status < 600 {
        Err(TranscribeError::Service { detail: utf8_lossy(&body) })
    } else {
        match decode_transcript_text(&body) {
            Some(text) => Ok(TranscriptResult { text }),
            None => Err(TranscribeError::Decode),
        }
    }
}

/// Where the pipeline for one attachment stands: which outside call it is
/// waiting for, or the outcome it finished with.
pub enum TranscribeState {
    /// Waiting for the platform to resolve `file_id` to a download path.
    ResolvingFile { file_id: String },
    /// Waiting for the bytes of the file at `path`.
    Downloading { path: String },
    /// Waiting for the service's answer to the upload of `payload`.
    Uploading { payload: Vec<u8> },
    /// The pipeline finished with `outcome`.
    Finished { outcome: Result<TranscriptResult, TranscribeError> },
}

/// The outcome of the one outside call a pipeline state waits for. A `None`
/// payload means the call failed.
pub enum TranscribeEvent {
    /// The file-metadata call came back; on success it names the download
    /// path.
    FileResolved { path: Option<String> },
    /// The download came back; on success it carries the file bytes.
    Downloaded { bytes: Option<Vec<u8>> },
    /// The upload came back; on success it carries the response status and
    /// body.
    UploadAnswered { response: Option<(u16, Vec<u8>)> },
}

/// Starts the pipeline for one attachment reference.
pub fn start_transcription(file_id: String) -> (s: TranscribeState)
    ensures
        s == (TranscribeState::ResolvingFile { file_id }),
{
    TranscribeState::ResolvingFile { file_id }
}

/// Drives the pipeline one step: the event carries the outcome of the call
/// the state was waiting for, and the result is the next state. A failed call
/// finishes the pipeline with the error of the stage it failed at; an event
/// that does not answer the state's pending call leaves the state unchanged.
pub fn transcribe_step(state: TranscribeState, event: TranscribeEvent) -> (next: TranscribeState)
    ensures
        state is ResolvingFile ==> match event {
            TranscribeEvent::FileResolved { path: Some(p) } => next == (TranscribeState::Downloading { path: p }),
            TranscribeEvent::FileResolved { path: None } => next == (TranscribeState::Finished {
                outcome: Err(TranscribeError::FileResolution),
            }),
            _ => next == state,
        },
        state is Downloading ==> match event {
            TranscribeEvent::Downloaded { bytes: Some(b) } => next == (TranscribeState::Uploading { payload: b }),
            TranscribeEvent::Downloaded { bytes: None } => next == (TranscribeState::Finished {
                outcome: Err(TranscribeError::Download),
            }),
            _ => next == state,
        },
        state is Uploading ==> match event {
            TranscribeEvent::UploadAnswered { response: Some((status, body)) } => next matches
                TranscribeState::Finished { outcome } && classified(status, body@, outcome),
            TranscribeEvent::UploadAnswered { response: None } => next == (TranscribeState::Finished {
                outcome: Err(TranscribeError::Upload),
            }),
            _ => next == state,
        },
        state is Finished ==> next == state,
{
    match (state, event) {
        (TranscribeState::ResolvingFile { .. }, TranscribeEvent::FileResolved { path }) => match path {
            Some(p) => TranscribeState::Downloading { path: p },
            None => TranscribeState::Finished { outcome: Err(TranscribeError::FileResolution) },
        },
        (TranscribeState::Downloading { .. }, TranscribeEvent::Downloaded { bytes }) => match bytes {
            Some(b) => TranscribeState::Uploading { payload: b },
            None => TranscribeState::Finished { outcome: Err(TranscribeError::Download) },
        },
        (TranscribeState::Uploading { .. }, TranscribeEvent::UploadAnswered { response }) => match response {
            Some((status, body)) => TranscribeState::Finished {
                outcome: classify_response(status, body),
            },
            None => TranscribeState::Finished { outcome: Err(TranscribeError::Upload) },
        },
        (s, _) => s,
    }
}

/// Address of the transcription service endpoint the upload goes to.
pub fn asr_endpoint() -> (r: String)
    ensures
        r@ == "http://asr.default.svc.cluster.local/asr"@,
{
    "http://asr.default.svc.cluster.local/asr".to_owned()
}

} // verus!
