//! The request to the language model, the credential it is made with, and
//! what becomes of the answer as it streams in.

use crate::context::AppContext;
use crate::prompt::{build_instruction, instruction_lines};
use crate::text::{joined, prefixed};
use vstd::prelude::*;
use vstd::string::StringExecFns;

verus! {

/// What is asked of the language model.
#[derive(Debug, Default)]
pub struct OpenAiChatInput {
    pub model: String,
    pub max_tokens: u32,
    pub system_prompt: String,
    pub user_prompt: String,
}

/// One item of the answer's stream.
#[derive(Debug)]
pub enum StreamEvent {
    /// A chunk of the answer: for each of its choices, the text it adds, if
    /// any.
    Chunk { contents: Vec<Option<String>> },
    /// A failure of the stream, in the stream's own words.
    Failure { message: String },
}

/// The text that some choices add, choice after choice.
pub open spec fn contents_text(contents: Seq<Option<String>>) -> Seq<char>
    decreases contents.len(),
{
    if contents.len() == 0 {
        Seq::empty()
    } else {
        contents_text(contents.drop_last()) + match contents.last() {
            Some(text) => text@,
            None => Seq::empty(),
        }
    }
}

/// What an item adds to the answer: the text of a chunk, and of a failure
/// its message, so that what had arrived is kept.
pub open spec fn added_text(event: StreamEvent) -> Seq<char> {
    match event {
        StreamEvent::Chunk { contents } => contents_text(contents@),
        StreamEvent::Failure { message } => message@,
    }
}

/// What is shown of an item as it arrives: the text of a chunk, and a
/// failure's message marked as an error.
pub open spec fn shown_text(event: StreamEvent) -> Seq<char> {
    match event {
        StreamEvent::Chunk { contents } => contents_text(contents@),
        StreamEvent::Failure { message } => "error: "@ + message@,
    }
}

/// The name of the environment variable that may hold the credential.
pub fn api_key_variable() -> (r: &'static str)
    ensures
        r@ == "OPENAI_API_KEY"@,
{
    "OPENAI_API_KEY"
}

/// Whether there is a credential: in the environment or in the
/// configuration.
pub fn has_api_key(from_environment: &Option<String>, configured: &Option<String>) -> (r: bool)
    ensures
        r == (from_environment is Some || configured is Some),
{
    from_environment.is_some() || configured.is_some()
}

/// The credential to use, where there is one: the one from the environment
/// where it holds one, else the configured one.
pub fn resolve_api_key(from_environment: Option<String>, configured: &Option<String>) -> (r:
    String)
    requires
        from_environment is Some || configured is Some,
    ensures
        from_environment matches Some(key) ==> r == key,
        from_environment is None ==> *configured == Some(r),
{
    match from_environment {
        Some(key) => key,
        None => match configured {
            Some(key) => key.clone(),
            None => vstd::pervasive::unreached(),
        },
    }
}

/// The request of a run: the run's model and limit of tokens, the fixed
/// instruction, and the prompt.
pub fn chat_input(context: &AppContext, prompt: String) -> (r: OpenAiChatInput)
    ensures
        r.model@ == context.open_ai_model@,
        r.max_tokens == context.open_ai_max_token,
        r.system_prompt@ == joined(instruction_lines(), "\n"@),
        r.user_prompt == prompt,
{
    OpenAiChatInput {
        model: context.open_ai_model.clone(),
        max_tokens: context.open_ai_max_token,
        system_prompt: build_instruction(),
        user_prompt: prompt,
    }
}

/// Takes one item of the stream into the answer gathered so far, and gives
/// what is to be shown of it.
pub fn absorb(output: &mut String, event: &StreamEvent) -> (shown: String)
    ensures
        final(output)@ == old(output)@ + added_text(*event),
        shown@ == shown_text(*event),
{
    match event {
        StreamEvent::Chunk { contents } => {
            let mut shown = String::new();
            let mut i: usize = 0;
            while i < contents.len()
                invariant
                    i <= contents.len(),
                    shown@ == contents_text(contents@.take(i as int)),
                    output@ == old(output)@ + contents_text(contents@.take(i as int)),
                decreases contents.len() - i,
            {
                assert(contents@.take(i + 1).drop_last() == contents@.take(i as int));
                match &contents[i] {
                    Some(text) => {
                        output.append(text.as_str());
                        shown.append(text.as_str());
                    },
                    None => {},
                }
                i += 1;
            }
            assert(contents@.take(contents.len() as int) == contents@);
            shown
        },
        StreamEvent::Failure { message } => {
            output.append(message.as_str());
            prefixed("error: ", message.as_str())
        },
    }
}

} // verus!
