//! Where the endpoint and its key come from.

use vstd::prelude::*;

use crate::error::AssistantError;

verus! {

/// The endpoint used when none is given.
pub const DEFAULT_API_URL: &'static str = "https://generativelanguage.googleapis.com/v1beta/models/gemini-pro:generateContent";

/// The output token limit used when none is given.
pub const DEFAULT_MAX_OUTPUT_TOKENS: usize = 400;

/// The first of the two values that is present, or the empty string.
pub open spec fn chosen_key(from_args: Option<String>, from_env: Option<String>) -> Seq<char> {
    match from_args {
        Some(a) => a@,
        None => match from_env {
            Some(e) => e@,
            None => Seq::empty(),
        },
    }
}

/// The API key: the command-line value if one was given, else the
/// environment's; an error where that comes to nothing or to the empty string.
pub fn resolve_api_key(from_args: Option<String>, from_env: Option<String>) -> (r: Result<
    String,
    AssistantError,
>)
    ensures
        chosen_key(from_args, from_env).len() == 0 ==> r matches Err(
            AssistantError::MissingApiKey,
        ),
        chosen_key(from_args, from_env).len() > 0 ==> (r matches Ok(k) && k@ == chosen_key(
            from_args,
            from_env,
        )),
{
    let key = match from_args {
        Some(a) => a,
        None => match from_env {
            Some(e) => e,
            None => String::new(),
        },
    };
    if key.as_str().is_empty() {
        Err(AssistantError::MissingApiKey)
    } else {
        Ok(key)
    }
}

/// The endpoint: the command-line value if one was given, else the
/// environment's, else [`DEFAULT_API_URL`].
pub fn resolve_api_url(from_args: Option<String>, from_env: Option<String>) -> (r: String)
    ensures
        r@ == match from_args {
            Some(a) => a@,
            None => match from_env {
                Some(e) => e@,
                None => DEFAULT_API_URL@,
            },
        },
{
    match from_args {
        Some(a) => a,
        None => match from_env {
            Some(e) => e,
            None => DEFAULT_API_URL.to_owned(),
        },
    }
}

/// A key given on the command line is the one used, whatever the environment
/// holds; the environment's key is used only when none was given there; with
/// neither there is no key.
pub proof fn lemma_argument_key_wins(from_args: Option<String>, from_env: Option<String>)
    ensures
        from_args matches Some(a) ==> chosen_key(from_args, from_env) == a@,
        from_args is None ==> (from_env matches Some(e) ==> chosen_key(from_args, from_env) == e@),
        from_args is None && from_env is None ==> chosen_key(from_args, from_env).len() == 0,
{
}

} // verus!
