use vstd::prelude::*;

verus! {

/// A request to the completion engine. The sampling parameters that the
/// engine takes as fractions are held in thousandths (900 stands for 0.9).
#[derive(Debug, Clone)]
pub struct CompletionParameters {
    pub engine: String,
    pub prompt: Option<String>,
    pub max_tokens: Option<usize>,
    pub temperature: Option<u32>,
    pub top_p: Option<u32>,
    pub n: Option<usize>,
    pub logprobs: Option<usize>,
    pub echo: Option<bool>,
    pub stop: Option<Vec<String>>,
    pub presence_penalty: Option<i32>,
    pub frequency_penalty: Option<i32>,
    pub best_of: Option<usize>,
}

/// How many log-probabilities an estimation request asks for per token.
pub const ESTIMATION_LOGPROBS: usize = 10;

/// The views of a list of strings.
pub open spec fn views_of(v: Seq<String>) -> Seq<Seq<char>> {
    v.map_values(|s: String| s@)
}

/// A copy of a list of strings.
pub fn copy_strings(v: &Vec<String>) -> (r: Vec<String>)
    ensures
        r@ == v@,
{
    let mut r: Vec<String> = Vec::new();
    let mut i: usize = 0;
    while i < v.len()
        invariant
            i <= v@.len(),
            r@ == v@.subrange(0, i as int),
        decreases v@.len() - i,
    {
        r.push(v[i].clone());
        i = i + 1;
        assert(r@ =~= v@.subrange(0, i as int));
    }
    assert(v@.subrange(0, v@.len() as int) =~= v@);
    r
}

impl CompletionParameters {
    /// No engine and no parameter set.
    pub open spec fn is_empty(self) -> bool {
        &&& self.engine@ == Seq::<char>::empty()
        &&& self.prompt is None
        &&& self.max_tokens is None
        &&& self.temperature is None
        &&& self.top_p is None
        &&& self.n is None
        &&& self.logprobs is None
        &&& self.echo is None
        &&& self.stop is None
        &&& self.presence_penalty is None
        &&& self.frequency_penalty is None
        &&& self.best_of is None
    }

    /// The sampling defaults of a conversation: temperature 0.9, nucleus
    /// threshold 1.0, frequency penalty 0.3, presence penalty 0.6, one
    /// candidate; everything else unset.
    pub open spec fn is_conversation_default(self) -> bool {
        &&& self.engine@ == Seq::<char>::empty()
        &&& self.prompt is None
        &&& self.max_tokens is None
        &&& self.temperature == Some(900u32)
        &&& self.top_p == Some(1000u32)
        &&& self.n is None
        &&& self.logprobs is None
        &&& self.echo is None
        &&& self.stop is None
        &&& self.presence_penalty == Some(600i32)
        &&& self.frequency_penalty == Some(300i32)
        &&& self.best_of == Some(1usize)
    }

    pub fn empty() -> (r: Self)
        ensures
            r.is_empty(),
    {
        CompletionParameters {
            engine: String::new(),
            prompt: None,
            max_tokens: None,
            temperature: None,
            top_p: None,
            n: None,
            logprobs: None,
            echo: None,
            stop: None,
            presence_penalty: None,
            frequency_penalty: None,
            best_of: None,
        }
    }

    /// Same engine and sampling parameters as `other`; prompt, count,
    /// candidates, stop sequences and the estimation fields are left free.
    pub open spec fn same_sampling(self, other: Self) -> bool {
        &&& self.engine@ == other.engine@
        &&& self.temperature == other.temperature
        &&& self.top_p == other.top_p
        &&& self.presence_penalty == other.presence_penalty
        &&& self.frequency_penalty == other.frequency_penalty
    }

    pub fn copy(&self) -> (r: Self)
        ensures
            r.same_sampling(*self),
            r.prompt == self.prompt,
            r.max_tokens == self.max_tokens,
            r.n == self.n,
            r.logprobs == self.logprobs,
            r.echo == self.echo,
            r.best_of == self.best_of,
            r.stop is Some <==> self.stop is Some,
            r.stop is Some ==> r.stop.unwrap()@ == self.stop.unwrap()@,
    {
        CompletionParameters {
            engine: self.engine.clone(),
            prompt: match &self.prompt {
                Some(p) => Some(p.clone()),
                None => None,
            },
            max_tokens: self.max_tokens,
            temperature: self.temperature,
            top_p: self.top_p,
            n: self.n,
            logprobs: self.logprobs,
            echo: self.echo,
            stop: match &self.stop {
                Some(s) => Some(copy_strings(s)),
                None => None,
            },
            presence_penalty: self.presence_penalty,
            frequency_penalty: self.frequency_penalty,
            best_of: self.best_of,
        }
    }
}

/// Why the engine stopped producing a candidate.
#[derive(Debug, Clone, Copy, PartialEq, Eq, Structural)]
pub enum FinishReason {
    /// It reached its length limit, possibly mid-thought.
    Length,
    /// It produced one of the stop sequences.
    Stop,
}

/// The per-token breakdown of an echoed prompt.
#[derive(Debug, Clone)]
pub struct LogProbs {
    pub tokens: Vec<String>,
}

/// One generated candidate.
#[derive(Debug, Clone)]
pub struct Choice {
    pub text: String,
    pub index: usize,
    pub logprobs: Option<LogProbs>,
    pub finish_reason: Option<FinishReason>,
}

/// An error that the engine reported in place of an answer.
#[derive(Debug, Clone)]
pub struct CompletionError {
    pub code: Option<usize>,
    pub message: String,
    pub kind: String,
}

/// What the engine answered to one request.
#[derive(Debug, Clone)]
pub enum CompletionResponse {
    Success { choices: Vec<Choice> },
    Error { error: CompletionError },
}

/// What follows a response in the generation loop.
#[derive(Debug, Clone)]
pub enum CompletionStep {
    /// Ask again, with this accumulated answer as the partial completion.
    Continue(String),
    /// The loop is over: the answer, or none when the engine refused.
    Finished(Option<String>),
}

/// The answer accumulated after a response whose candidates are `choices`.
pub open spec fn extended_answer(answer: Seq<char>, choices: Seq<Choice>) -> Seq<char> {
    if choices.len() == 0 {
        answer
    } else {
        answer + choices[0].text@
    }
}

/// Whether the first candidate ended on a stop sequence.
pub open spec fn stopped_naturally(choices: Seq<Choice>) -> bool {
    choices.len() > 0 && choices[0].finish_reason == Some(FinishReason::Stop)
}

/// One round of the generation loop. The first candidate's text is added to
/// the answer; the loop ends with that answer when the candidate stopped on a
/// stop sequence, goes on when it was cut off (or no candidate came), and
/// ends with no answer when the engine reported an error.
pub fn next_completion_step(answer_buf: String, response: &CompletionResponse) -> (r:
    CompletionStep)
    ensures
        match response {
            CompletionResponse::Success { choices } => {
                let a = extended_answer(answer_buf@, choices@);
                if stopped_naturally(choices@) {
                    r is Finished && r->Finished_0 is Some && r->Finished_0.unwrap()@ == a
                } else {
                    r is Continue && r->Continue_0@ == a
                }
            },
            CompletionResponse::Error { .. } => r is Finished && r->Finished_0 is None,
        },
{
    match response {
        CompletionResponse::Success { choices } => {
            let mut answer_buf = answer_buf;
            if choices.len() > 0 {
                let first_choice = &choices[0];
                answer_buf.append(first_choice.text.as_str());
                if let Some(FinishReason::Stop) = first_choice.finish_reason {
                    return CompletionStep::Finished(Some(answer_buf));
                }
            }
            CompletionStep::Continue(answer_buf)
        },
        CompletionResponse::Error { .. } => CompletionStep::Finished(None),
    }
}

/// The token count that an estimation response reports: the length of the
/// first candidate's per-token breakdown, when there is one.
pub open spec fn reported_token_count(response: CompletionResponse) -> Option<nat> {
    match response {
        CompletionResponse::Success { choices } => if choices@.len() > 0
            && choices@[0].logprobs is Some {
            Some(choices@[0].logprobs.unwrap().tokens@.len())
        } else {
            None
        },
        CompletionResponse::Error { .. } => None,
    }
}

pub fn token_count_from_response(response: &CompletionResponse) -> (r: Option<usize>)
    ensures
        r is Some <==> reported_token_count(*response) is Some,
        r is Some ==> r.unwrap() == reported_token_count(*response).unwrap(),
{
    match response {
        CompletionResponse::Success { choices } => {
            if choices.len() > 0 {
                if let Some(lp) = &choices[0].logprobs {
                    return Some(lp.tokens.len());
                }
            }
            None
        },
        CompletionResponse::Error { .. } => None,
    }
}

/// The address of an engine's completion endpoint.
pub open spec fn engine_url(engine: Seq<char>) -> Seq<char> {
    "https://api.openai.com/v1/engines/"@ + engine + "/completions"@
}

pub fn get_engine_url(engine: &str) -> (r: String)
    ensures
        r@ == engine_url(engine@),
{
    let mut r = String::from_str("https://api.openai.com/v1/engines/");
    r.append(engine);
    r.append("/completions");
    r
}

} // verus!
