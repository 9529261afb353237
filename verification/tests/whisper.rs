use quelana::audio::u16_sample_to_i16;
use quelana::error::AssistantError;
use quelana::whisper::{prepare_whisper_command, require_whisper_cmd, split_command_line, transcription_outcome};

#[test]
fn template_placeholder_is_replaced_and_split() {
    let c = prepare_whisper_command("whisper --file {input} --out '{input}.txt'", "/tmp/a b.wav")
        .unwrap()
        .unwrap();
    assert_eq!(c.program, "whisper");
    assert_eq!(c.args, vec!["--file", "/tmp/a", "b.wav", "--out", "/tmp/a b.wav.txt"]);
}

#[test]
fn template_without_words_or_with_open_quote() {
    assert!(prepare_whisper_command("   ", "/x.wav").unwrap().is_none());
    assert!(matches!(prepare_whisper_command("run '{input}", "/x.wav"), Err(AssistantError::CommandSyntax)));
    assert!(matches!(split_command_line("a \"b"), Err(AssistantError::CommandSyntax)));
    assert_eq!(split_command_line("a 'b c' d").unwrap(), vec!["a", "b c", "d"]);
}

#[test]
fn whisper_command_must_be_configured() {
    assert!(matches!(require_whisper_cmd(String::new()), Err(AssistantError::WhisperNotConfigured)));
    assert_eq!(require_whisper_cmd("w {input}".to_string()).unwrap(), "w {input}");
}

#[test]
fn transcription_output_is_trimmed_and_failures_quote_stderr() {
    assert_eq!(transcription_outcome(true, "  what is the plan?\n", "").unwrap(), "what is the plan?");
    match transcription_outcome(false, "", "no model") {
        Err(e) => assert_eq!(e.message(), "Whisper command failed: no model"),
        Ok(_) => panic!("expected an error"),
    }
}

#[test]
fn unsigned_samples_are_centred() {
    assert_eq!(u16_sample_to_i16(0), i16::MIN);
    assert_eq!(u16_sample_to_i16(32768), 0);
    assert_eq!(u16_sample_to_i16(65535), i16::MAX);
    for s in [0u16, 1, 1000, 32767, 32768, 40000, 65535] {
        assert_eq!(u16_sample_to_i16(s), (s as i16).wrapping_sub(i16::MIN));
    }
}
