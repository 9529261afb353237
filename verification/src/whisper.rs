//! Turning a recorded question into text with an external transcription command.

use vstd::prelude::*;

use crate::error::AssistantError;
use crate::text::{
    has_substring, lemma_replace_leading_pattern, lemma_replace_without_occurrence, replace_all,
    replace_text, trim, trimmed,
};

verus! {

/// Seconds of audio recorded for one question.
pub const RECORD_SECONDS: u64 = 7;

/// The placeholder in the command template that stands for the recording's path.
pub const INPUT_PLACEHOLDER: &'static str = "{input}";

#[verifier::external_type_specification]
#[verifier::external_body]
pub struct ExShellParseError(shell_words::ParseError);

/// The words that `shell_words::split` makes of a command line, or `None`
/// where it reports an unterminated quote.
pub uninterp spec fn shell_words_of(line: Seq<char>) -> Option<Seq<Seq<char>>>;

/// `shell_words::split`: the contract claims that the words (or the failure)
/// are those the crate's splitting gives for the line, a function of the line alone.
#[verifier::external_body]
fn split_words(line: &str) -> (r: Result<Vec<String>, shell_words::ParseError>)
    ensures
        r matches Ok(w) ==> shell_words_of(line@) == Some(w@.map_values(|x: String| x@)),
        r is Err ==> shell_words_of(line@) is None,
{
    shell_words::split(line)
}

/// A program and the arguments to run it with.
#[derive(Debug)]
pub struct WhisperCommand {
    pub program: String,
    pub args: Vec<String>,
}

/// Splits a command line into words the way a POSIX shell would.
pub fn split_command_line(line: &str) -> (r: Result<Vec<String>, AssistantError>)
    ensures
        shell_words_of(line@) is None ==> r matches Err(AssistantError::CommandSyntax),
        shell_words_of(line@) matches Some(ws) ==> (r matches Ok(w) && w@.map_values(
            |x: String| x@,
        ) == ws),
{
    match split_words(line) {
        Ok(w) => Ok(w),
        Err(_) => Err(AssistantError::CommandSyntax),
    }
}

/// The first word is the program, the others its arguments.
pub fn whisper_command(words: Vec<String>) -> (c: WhisperCommand)
    requires
        words.len() > 0,
    ensures
        c.program == words@[0],
        c.args@ == words@.drop_first(),
{
    let mut words = words;
    let program = words.remove(0);
    WhisperCommand { program, args: words }
}

/// The command line for a recording: the template with each `{input}`
/// replaced by the recording's path.
pub open spec fn command_line(template: Seq<char>, input_path: Seq<char>) -> Seq<char> {
    replace_all(template, "{input}"@, input_path)
}

/// `r` is the command for the words `ws`: none without words, else the first
/// word as the program and the others as its arguments.
pub open spec fn command_for_words(
    ws: Seq<Seq<char>>,
    r: Result<Option<WhisperCommand>, AssistantError>,
) -> bool {
    match r {
        Ok(None) => ws.len() == 0,
        Ok(Some(c)) => ws.len() > 0 && c.program@ == ws[0] && c.args@.map_values(|x: String| x@)
            == ws.drop_first(),
        Err(_) => false,
    }
}

/// The command that transcribes the recording at `input_path`: an error
/// where the command line has an unterminated quote, `None` where it has no
/// words at all (there is no program to run), the program and its arguments
/// otherwise.
pub fn prepare_whisper_command(template: &str, input_path: &str) -> (r: Result<
    Option<WhisperCommand>,
    AssistantError,
>)
    ensures
        shell_words_of(command_line(template@, input_path@)) is None ==> r matches Err(
            AssistantError::CommandSyntax,
        ),
        shell_words_of(command_line(template@, input_path@)) matches Some(ws) ==> command_for_words(
            ws,
            r,
        ),
{
    proof {
        reveal_strlit("{input}");
    }
    let line = replace_text(template, INPUT_PLACEHOLDER, input_path);
    let words = split_words(line.as_str());
    match words {
        Err(_) => Err(AssistantError::CommandSyntax),
        Ok(w) => {
            if w.len() == 0 {
                Ok(None)
            } else {
                let ghost wv = w@;
                let c = whisper_command(w);
                assert(c.args@.map_values(|x: String| x@) == wv.map_values(|x: String| x@).drop_first());
                Ok(Some(c))
            }
        },
    }
}

/// The configured transcription command, or the error for a missing one.
pub fn require_whisper_cmd(configured: String) -> (r: Result<String, AssistantError>)
    ensures
        configured@.len() == 0 ==> r matches Err(AssistantError::WhisperNotConfigured),
        configured@.len() > 0 ==> r == Ok::<String, AssistantError>(configured),
{
    if configured.as_str().is_empty() {
        Err(AssistantError::WhisperNotConfigured)
    } else {
        Ok(configured)
    }
}

/// What a finished transcription run comes to: its trimmed standard output,
/// or, where it failed, the error quoting its standard error.
pub fn transcription_outcome(success: bool, stdout: &str, stderr: &str) -> (r: Result<
    String,
    AssistantError,
>)
    ensures
        success ==> (r matches Ok(t) && t@ == trimmed(stdout@)),
        !success ==> (r matches Err(AssistantError::WhisperFailed { stderr: e }) && e@ == stderr@),
{
    if !success {
        return Err(AssistantError::WhisperFailed { stderr: stderr.to_owned() });
    }
    Ok(trim(stdout))
}

/// A template without the `{input}` placeholder is run as it stands,
/// whatever the recording's path.
pub proof fn lemma_template_without_placeholder(template: Seq<char>, input_path: Seq<char>)
    requires
        !has_substring(template, "{input}"@),
    ensures
        command_line(template, input_path) == template,
{
    reveal_strlit("{input}");
    lemma_replace_without_occurrence(template, "{input}"@, input_path);
}

/// A template that starts with `{input}` starts with the recording's path,
/// and a template that is just `{input}` is just the path.
pub proof fn lemma_placeholder_becomes_path(rest: Seq<char>, input_path: Seq<char>)
    ensures
        command_line("{input}"@ + rest, input_path) == input_path + command_line(rest, input_path),
        command_line("{input}"@, input_path) == input_path,
{
    reveal_strlit("{input}");
    lemma_replace_leading_pattern("{input}"@, rest, input_path);
    lemma_replace_leading_pattern("{input}"@, Seq::empty(), input_path);
    assert("{input}"@ + Seq::<char>::empty() == "{input}"@);
    assert(input_path + Seq::<char>::empty() == input_path);
}

} // verus!
