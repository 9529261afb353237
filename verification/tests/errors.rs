use quelana::config::{resolve_api_key, resolve_api_url, DEFAULT_API_URL};
use quelana::error::AssistantError;

#[test]
fn every_error_has_its_message() {
    assert_eq!(
        AssistantError::MissingApiKey.message(),
        "Please set GEMINI_API_KEY in your environment or pass --api-key."
    );
    assert_eq!(
        AssistantError::Unreachable { detail: "timeout".to_string() }.message(),
        "Unable to reach Gemini endpoint: timeout. Check your API URL and network connection."
    );
    assert_eq!(
        AssistantError::WhisperNotConfigured.message(),
        "WHISPER_CMD not configured. Set WHISPER_CMD in environment."
    );
    assert_eq!(
        AssistantError::WhisperFailed { stderr: "boom".to_string() }.message(),
        "Whisper command failed: boom"
    );
    assert_eq!(AssistantError::CommandSyntax.message(), "missing closing quote");
}

#[test]
fn api_key_from_arguments_then_environment() {
    assert_eq!(resolve_api_key(Some("a".into()), Some("e".into())).unwrap(), "a");
    assert_eq!(resolve_api_key(None, Some("e".into())).unwrap(), "e");
    assert!(matches!(resolve_api_key(None, None), Err(AssistantError::MissingApiKey)));
    assert!(matches!(resolve_api_key(Some(String::new()), Some("e".into())), Err(AssistantError::MissingApiKey)));
}

#[test]
fn api_url_falls_back_to_default_endpoint() {
    assert_eq!(resolve_api_url(None, None), DEFAULT_API_URL);
    assert_eq!(resolve_api_url(None, Some("http://e".into())), "http://e");
    assert_eq!(resolve_api_url(Some(String::new()), Some("http://e".into())), "");
}
