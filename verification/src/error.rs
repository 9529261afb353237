//! Errors of the assistant, each with the message shown to the user.

use vstd::prelude::*;

verus! {

/// What can go wrong between a question and its answer.
#[derive(Debug)]
pub enum AssistantError {
    /// No API key was given on the command line or in the environment.
    MissingApiKey,
    /// The endpoint could not be reached; `detail` describes the transport error.
    Unreachable { detail: String },
    /// The endpoint answered with a status outside 200..=299.
    ApiStatus { status: String, body: String },
    /// `WHISPER_CMD` is not set or is empty.
    WhisperNotConfigured,
    /// The transcription command exited unsuccessfully.
    WhisperFailed { stderr: String },
    /// The transcription command line has an unterminated quote.
    CommandSyntax,
}

/// The text shown for an error.
pub open spec fn error_message(e: AssistantError) -> Seq<char> {
    match e {
        AssistantError::MissingApiKey => "Please set GEMINI_API_KEY in your environment or pass --api-key."@,
        AssistantError::Unreachable { detail } => "Unable to reach Gemini endpoint: "@ + detail@
            + ". Check your API URL and network connection."@,
        AssistantError::ApiStatus { status, body } => "API returned "@ + status@ + ": "@ + body@
            + ". Check your API key and endpoint."@,
        AssistantError::WhisperNotConfigured => "WHISPER_CMD not configured. Set WHISPER_CMD in environment."@,
        AssistantError::WhisperFailed { stderr } => "Whisper command failed: "@ + stderr@,
        AssistantError::CommandSyntax => "missing closing quote"@,
    }
}

impl AssistantError {
    /// The text shown for this error.
    pub fn message(&self) -> (m: String)
        ensures
            m@ == error_message(*self),
    {
        match self {
            AssistantError::MissingApiKey => {
                "Please set GEMINI_API_KEY in your environment or pass --api-key.".to_owned()
            },
            AssistantError::Unreachable { detail } => {
                let mut m = "Unable to reach Gemini endpoint: ".to_owned();
                m.append(detail.as_str());
                m.append(". Check your API URL and network connection.");
                m
            },
            AssistantError::ApiStatus { status, body } => {
                let mut m = "API returned ".to_owned();
                m.append(status.as_str());
                m.append(": ");
                m.append(body.as_str());
                m.append(". Check your API key and endpoint.");
                m
            },
            AssistantError::WhisperNotConfigured => {
                "WHISPER_CMD not configured. Set WHISPER_CMD in environment.".to_owned()
            },
            AssistantError::WhisperFailed { stderr } => {
                let mut m = "Whisper command failed: ".to_owned();
                m.append(stderr.as_str());
                m
            },
            AssistantError::CommandSyntax => "missing closing quote".to_owned(),
        }
    }
}

} // verus!
