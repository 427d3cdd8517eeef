use vstd::prelude::*;

use crate::conversation::{Transformer, TransformerKind};
use crate::error::StringError;
use crate::text::{
    has_prefix,
    lowercased,
    replace,
    replaced,
    starts_with,
    strip_leading,
    strip_surrounding,
    to_lowercase,
    trim,
    trim_matches,
    trim_start_matches,
    trimmed,
};

verus! {

/// Messages that begin with this are commands, never conversation.
pub const COMMAND_IDENTIFIER: &'static str = "!";

/// Messages that begin with this are spoken to the bot.
pub const PROMPT_MARKER: &'static str = ">";

/// The engine that an administrator's first argument names: `default`, in
/// any case, stands for `davinci`; any other name is taken as it is.
pub open spec fn engine_named(arg: Seq<char>) -> Seq<char> {
    if lowercased(arg) == "default"@ {
        "davinci"@
    } else {
        arg
    }
}

pub fn engine_from_arg(arg: Option<String>) -> (r: Result<String, StringError>)
    ensures
        arg is None ==> r is Err && r->Err_0.0@
            == "Missing engine (if you aren't sure, use `default`)"@,
        arg is Some ==> r is Ok && r->Ok_0@ == engine_named(arg.unwrap()@),
{
    match arg {
        Some(arg) => {
            let lower = to_lowercase(arg.as_str());
            if lower == String::from_str("default") {
                Ok(String::from_str("davinci"))
            } else {
                Ok(arg)
            }
        },
        None => Err(StringError::new("Missing engine (if you aren't sure, use `default`)")),
    }
}

/// Whether a session kind names the remote engine, in any case.
pub open spec fn is_remote_kind(name: Seq<char>) -> bool {
    lowercased(name) == "gpt3"@
}

/// Checks the session kind that `enable` was given; only the remote engine
/// can be enabled.
pub fn check_engine_kind(session_name: &str) -> (r: Result<(), StringError>)
    ensures
        is_remote_kind(session_name@) ==> r is Ok,
        !is_remote_kind(session_name@) ==> r is Err && r->Err_0.0@
            == "No complection engine found for "@ + session_name@,
{
    let lower = to_lowercase(session_name);
    if lower == String::from_str("gpt3") {
        Ok(())
    } else {
        let mut msg = String::from_str("No complection engine found for ");
        msg.append(session_name);
        Err(StringError(msg))
    }
}

/// Whether a transformer kind names the conversation transformer, in any case.
pub open spec fn is_conversation_kind(kind: Seq<char>) -> bool {
    lowercased(kind) == "conversation"@ || lowercased(kind) == "convo"@
}

pub fn check_transform_kind(kind: &str) -> (r: Result<(), StringError>)
    ensures
        is_conversation_kind(kind@) ==> r is Ok,
        !is_conversation_kind(kind@) ==> r is Err && r->Err_0.0@ == "Invalid conversation type"@,
{
    let lower = to_lowercase(kind);
    if lower == String::from_str("conversation") || lower == String::from_str("convo") {
        Ok(())
    } else {
        Err(StringError::new("Invalid conversation type"))
    }
}

/// The assistant's name: the one given, unless none was given or it is `_`;
/// then the bot's own.
pub open spec fn ai_name_of(arg: Option<String>, bot_name: Seq<char>) -> Seq<char> {
    match arg {
        Some(a) => if a@ == "_"@ {
            bot_name
        } else {
            a@
        },
        None => bot_name,
    }
}

/// The scenario text: the rest of the arguments without surrounding
/// whitespace, backticks and quotes, with each `{name}` in it replaced by the
/// assistant's name; none when nothing is left.
pub open spec fn scenario_of(rest: Seq<char>, ai_name: Seq<char>) -> Option<Seq<char>> {
    let t = trimmed(strip_surrounding(strip_surrounding(trimmed(rest), '`'), '"'));
    if t.len() == 0 {
        None
    } else {
        Some(replaced(t, "{name}"@, ai_name))
    }
}

/// The conversation transformer that `enable` sets up from the assistant's
/// name argument, the bot's own name and the rest of the arguments.
pub fn conversation_transformer(ai_name_arg: Option<String>, bot_name: String, rest: &str) -> (r:
    TransformerKind)
    ensures
        r.transformer().ai_name@ == ai_name_of(ai_name_arg, bot_name@),
        match scenario_of(rest@, ai_name_of(ai_name_arg, bot_name@)) {
            Some(c) => r.transformer().context is Some && r.transformer().context.unwrap()@ == c,
            None => r.transformer().context is None,
        },
{
    let ai_name = match ai_name_arg {
        Some(temp) => {
            if temp == String::from_str("_") {
                bot_name
            } else {
                temp
            }
        },
        None => bot_name,
    };
    let trimmed_rest = trim(trim_matches(trim_matches(trim(rest), '`'), '"'));
    let context = if trimmed_rest.is_empty() {
        None
    } else {
        proof {
            reveal_strlit("{name}");
        }
        Some(replace(trimmed_rest, "{name}", ai_name.as_str()))
    };
    TransformerKind::Conversation(Transformer { ai_name, context })
}

/// Whether a message is spoken to the bot: not by a bot, not a command, and
/// marked as a prompt.
pub fn is_qualifying_message(author_is_bot: bool, content: &str) -> (r: bool)
    ensures
        r == (!author_is_bot && !has_prefix(content@, COMMAND_IDENTIFIER@) && has_prefix(
            content@,
            PROMPT_MARKER@,
        )),
{
    !author_is_bot && !starts_with(content, COMMAND_IDENTIFIER) && starts_with(
        content,
        PROMPT_MARKER,
    )
}

/// The text of a prompt message, without its leading markers.
pub fn message_text(content: &str) -> (r: String)
    ensures
        r@ == strip_leading(content@, '>'),
{
    String::from_str(trim_start_matches(content, '>'))
}

} // verus!
