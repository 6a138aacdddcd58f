//! Per-call pipeline logic: building the transcription request from a
//! sample buffer, and mapping the remote outcome to the caller's result.
//!
//! The host performs the network call itself; this module fixes what is
//! sent (the encoded container and the recognition parameters) and what
//! each possible answer turns into.

use vstd::prelude::*;

verus! {

use vstd::string::StringExecFns;
use crate::wav::EncodeError;
use crate::wav::MAX_SAMPLES;
use crate::wav::encode;
use crate::wav::wav_bytes;

/// Sampling temperature sent with every request, in tenths: 7 stands for 0.7.
pub const TEMPERATURE_TENTHS: u8 = 7;

/// A transcription request: the encoded container plus the fixed
/// recognition parameters.
pub struct TranscriptionRequest {
    /// The encoded waveform container.
    pub audio: Vec<u8>,
    /// Sampling temperature in tenths.
    pub temperature_tenths: u8,
    /// Language code sent with the request.
    pub language: String,
    /// Model identifier sent with the request.
    pub model: String,
}

/// The request that a sample sequence gives rise to: its container bytes
/// and the fixed parameters, nothing else.
pub open spec fn request_for(req: TranscriptionRequest, samples: Seq<i16>) -> bool {
    &&& req.audio@ == wav_bytes(samples)
    &&& req.temperature_tenths == TEMPERATURE_TENTHS
    &&& req.language@ == "en"@
    &&& req.model@ == "whisper-large-v3"@
}

/// Failure of the pipeline, as reported to the caller.
#[derive(Debug)]
pub enum TranscribeError {
    /// Encoding the samples failed.
    Encoding(EncodeError),
    /// The remote service failed; the string is the full wrapped message,
    /// with the remote detail preserved inside it.
    Remote(String),
}

/// The message under which an encoding failure is described.
pub open spec fn encoding_failure_message() -> Seq<char> {
    "audio does not fit a WAV container"@
}

/// The prefix under which a remote failure is reported.
pub open spec fn remote_failure_prefix() -> Seq<char> {
    "Failed to get response from Groq: "@
}

impl TranscribeError {
    /// The human-readable message shown to the caller.
    pub open spec fn spec_message(&self) -> Seq<char> {
        match self {
            TranscribeError::Encoding(_) => encoding_failure_message(),
            TranscribeError::Remote(message) => message@,
        }
    }

    /// Renders the message shown to the caller.
    pub fn message(&self) -> (m: String)
        ensures
            m@ == self.spec_message(),
    {
        match self {
            TranscribeError::Encoding(_) => String::from_str("audio does not fit a WAV container"),
            TranscribeError::Remote(message) => message.clone(),
        }
    }
}

/// Builds the request for a sample buffer: encodes the samples into the
/// container and attaches the fixed recognition parameters.
///
/// Succeeds exactly when the samples fit the container, and then the
/// request carries their exact encoding; an encoding failure is wrapped
/// and returned, never masked.
pub fn prepare_request(samples: &Vec<i16>) -> (r: Result<TranscriptionRequest, TranscribeError>)
    ensures
        r is Ok <==> samples@.len() <= MAX_SAMPLES,
        r matches Ok(req) ==> request_for(req, samples@),
        r matches Err(e) ==> (e matches TranscribeError::Encoding(enc)
            && enc is TooManySamples),
{
    match encode(samples) {
        Ok(audio) => Ok(
            TranscriptionRequest {
                audio,
                temperature_tenths: TEMPERATURE_TENTHS,
                language: String::from_str("en"),
                model: String::from_str("whisper-large-v3"),
            },
        ),
        Err(e) => Err(TranscribeError::Encoding(e)),
    }
}

/// Maps the remote service's outcome to the caller's result.
///
/// A transcript is returned exactly as received, with no normalization or
/// trimming; a failure is wrapped under the remote-failure prefix with the
/// remote detail preserved verbatim.
pub fn complete(outcome: Result<String, String>) -> (r: Result<String, TranscribeError>)
    ensures
        outcome matches Ok(text) ==> r matches Ok(t) && t == text,
        outcome matches Err(detail) ==> (r matches Err(e) && e matches TranscribeError::Remote(m)
            && m@ == remote_failure_prefix() + detail@),
{
    match outcome {
        Ok(text) => Ok(text),
        Err(detail) => {
            let mut m: String = String::from_str("Failed to get response from Groq: ");
            m.append(detail.as_str());
            Err(TranscribeError::Remote(m))
        },
    }
}

} // verus!
