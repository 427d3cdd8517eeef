use vstd::prelude::*;

use crate::completion::{CompletionParameters, views_of};
use crate::gpt2::Configuration;

verus! {

/// One turn of a conversation, in the order it was said.
#[derive(Debug, Clone)]
pub struct LogItem {
    pub author_name: Option<String>,
    pub author_nick: Option<String>,
    pub text: String,
    pub sent_by_ai: bool,
}

/// How a human author is called in the transcript: the nickname if there is
/// one, else the display name, else a placeholder.
pub open spec fn identifier_of(item: LogItem) -> Seq<char> {
    match item.author_nick {
        Some(nick) => "User ("@ + nick@ + ")"@,
        None => match item.author_name {
            Some(name) => "User ("@ + name@ + ")"@,
            None => "Somebody"@,
        },
    }
}

impl LogItem {
    pub fn user_identifier(&self) -> (r: String)
        ensures
            r@ == identifier_of(*self),
    {
        if let Some(nick) = &self.author_nick {
            let mut r = String::from_str("User (");
            r.append(nick.as_str());
            r.append(")");
            r
        } else if let Some(name) = &self.author_name {
            let mut r = String::from_str("User (");
            r.append(name.as_str());
            r.append(")");
            r
        } else {
            String::from_str("Somebody")
        }
    }
}

/// Renders a log as a chat transcript: an optional scenario text, then one
/// `speaker: text` line per entry.
#[derive(Debug, Clone)]
pub struct Transformer {
    pub ai_name: String,
    pub context: Option<String>,
}

/// The scenario text that opens every transcript, followed by a blank line.
pub open spec fn preamble(t: Transformer) -> Seq<char> {
    match t.context {
        Some(ctx) => ctx@ + "\n\n"@,
        None => Seq::empty(),
    }
}

/// Who speaks a line: the assistant for generated entries, the author otherwise.
pub open spec fn speaker_of(t: Transformer, item: LogItem) -> Seq<char> {
    if item.sent_by_ai {
        t.ai_name@
    } else {
        identifier_of(item)
    }
}

/// One rendered line: `speaker: text` and a newline.
pub open spec fn line_of(t: Transformer, item: LogItem) -> Seq<char> {
    speaker_of(t, item) + ": "@ + item.text@ + "\n"@
}

/// The rendered lines of all entries, oldest first.
pub open spec fn lines_of(t: Transformer, log: Seq<LogItem>) -> Seq<char>
    decreases log.len(),
{
    if log.len() == 0 {
        Seq::empty()
    } else {
        lines_of(t, log.drop_last()) + line_of(t, log.last())
    }
}

/// The cue that asks the engine to speak as the assistant.
pub open spec fn cue_of(t: Transformer) -> Seq<char> {
    t.ai_name@ + ": "@
}

/// The stop sequences: the assistant's name, a newline and a human-turn marker.
pub open spec fn stop_tokens_of(t: Transformer) -> Seq<Seq<char>> {
    seq![t.ai_name@, "\n"@, "User "@]
}

impl Transformer {
    pub fn stop_tokens(&self) -> (r: Option<Vec<String>>)
        ensures
            r is Some,
            views_of(r.unwrap()@) == stop_tokens_of(*self),
    {
        let v = vec![self.ai_name.clone(), String::from_str("\n"), String::from_str("User ")];
        assert(views_of(v@) =~= stop_tokens_of(*self));
        Some(v)
    }

    /// Sampling parameters for a newly enabled remote session, in thousandths.
    pub fn default_gpt3_configuration(&self) -> (r: CompletionParameters)
        ensures
            r.is_conversation_default(),
    {
        CompletionParameters {
            temperature: Some(900),
            top_p: Some(1000),
            frequency_penalty: Some(300),
            best_of: Some(1),
            presence_penalty: Some(600),
            ..CompletionParameters::empty()
        }
    }

    pub fn default_gpt2_configuration(&self) -> (r: Configuration) {
        Configuration {  }
    }

    pub fn append_prompt(&self, buf: &mut String)
        ensures
            final(buf)@ == old(buf)@ + cue_of(*self),
    {
        buf.append(self.ai_name.as_str());
        buf.append(": ");
    }

    pub fn prepare(&self, buf: &mut String)
        ensures
            final(buf)@ == old(buf)@ + preamble(*self),
    {
        if let Some(ctx) = &self.context {
            buf.append(ctx.as_str());
            buf.append("\n\n");
        }
        assert(final(buf)@ =~= old(buf)@ + preamble(*self));
    }

    pub fn transform(&self, buf: &mut String, log_item: &LogItem)
        ensures
            final(buf)@ == old(buf)@ + line_of(*self, *log_item),
    {
        let user_identifier = log_item.user_identifier();
        if log_item.sent_by_ai {
            buf.append(self.ai_name.as_str());
        } else {
            buf.append(user_identifier.as_str());
        }
        buf.append(": ");
        buf.append(log_item.text.as_str());
        buf.append("\n");
        assert(final(buf)@ =~= old(buf)@ + line_of(*self, *log_item));
    }
}

/// The ways a log can be rendered; each session holds one.
#[derive(Debug, Clone)]
pub enum TransformerKind {
    Conversation(Transformer),
}

impl TransformerKind {
    pub open spec fn transformer(self) -> Transformer {
        match self {
            TransformerKind::Conversation(t) => t,
        }
    }

    pub fn get_context(&self) -> (r: &Option<String>)
        ensures
            *r == self.transformer().context,
    {
        match self {
            TransformerKind::Conversation(convo) => &convo.context,
        }
    }

    pub fn set_context(&mut self, context: &str)
        ensures
            final(self).transformer().ai_name == old(self).transformer().ai_name,
            final(self).transformer().context is Some,
            final(self).transformer().context.unwrap()@ == context@,
    {
        match self {
            TransformerKind::Conversation(convo) => {
                convo.context = Some(String::from_str(context));
            },
        }
    }

    pub fn default_gpt2_configuration(&self) -> (r: Configuration) {
        match self {
            TransformerKind::Conversation(trans) => trans.default_gpt2_configuration(),
        }
    }

    pub fn default_gpt3_configuration(&self) -> (r: CompletionParameters)
        ensures
            r.is_conversation_default(),
    {
        match self {
            TransformerKind::Conversation(trans) => trans.default_gpt3_configuration(),
        }
    }

    pub fn prepare(&self, buf: &mut String)
        ensures
            final(buf)@ == old(buf)@ + preamble(self.transformer()),
    {
        match self {
            TransformerKind::Conversation(trans) => trans.prepare(buf),
        }
    }

    pub fn transform(&self, buf: &mut String, log_item: &LogItem)
        ensures
            final(buf)@ == old(buf)@ + line_of(self.transformer(), *log_item),
    {
        match self {
            TransformerKind::Conversation(trans) => trans.transform(buf, log_item),
        }
    }

    pub fn append_prompt(&self, buf: &mut String)
        ensures
            final(buf)@ == old(buf)@ + cue_of(self.transformer()),
    {
        match self {
            TransformerKind::Conversation(trans) => trans.append_prompt(buf),
        }
    }

    pub fn get_stop_params(&self) -> (r: Option<Vec<String>>)
        ensures
            r is Some,
            views_of(r.unwrap()@) == stop_tokens_of(self.transformer()),
    {
        match self {
            TransformerKind::Conversation(trans) => trans.stop_tokens(),
        }
    }
}

} // verus!
