use vstd::prelude::*;

use crate::completion::{CompletionParameters, ESTIMATION_LOGPROBS, views_of};
use crate::conversation::{
    LogItem,
    TransformerKind,
    cue_of,
    lines_of,
    line_of,
    preamble,
    stop_tokens_of,
};
use crate::text::{trimmed, trim};

verus! {

/// The prompt size, in tokens, above which the oldest entries are dropped.
pub const TOKEN_BUDGET: usize = 500;

/// A session served by the remote completion engine: its transcript, the
/// sampling configuration, and the last token count the engine reported for
/// the transcript.
#[derive(Debug)]
pub struct GPT3MessageHandler {
    pub transformer: TransformerKind,
    pub message_log: Vec<LogItem>,
    pub configuration: CompletionParameters,
    pub token_count: usize,
}

/// The transcript of a log: the preamble, then one line per entry.
pub open spec fn transcript_of(kind: TransformerKind, log: Seq<LogItem>) -> Seq<char> {
    preamble(kind.transformer()) + lines_of(kind.transformer(), log)
}

/// The prompt for a log: its transcript, the assistant's cue, then whatever
/// part of the answer has been generated so far.
pub open spec fn prompt_of(kind: TransformerKind, log: Seq<LogItem>, partial: Seq<char>) -> Seq<
    char,
> {
    transcript_of(kind, log) + cue_of(kind.transformer()) + partial
}

/// The token count is within `max_tokens`, or there is nothing left to drop.
pub open spec fn within_budget(token_count: usize, log_len: nat, max_tokens: usize) -> bool {
    token_count <= max_tokens || log_len == 0
}

/// `later` is what is left of `earlier` after dropping some of its oldest entries.
pub open spec fn is_suffix_of(later: Seq<LogItem>, earlier: Seq<LogItem>) -> bool {
    exists|k: int| 0 <= k <= earlier.len() && later == earlier.subrange(k, earlier.len() as int)
}

/// How many of the oldest entries a trimming round drops from a log of `len`
/// entries: half of them, rounded down, but never none.
pub open spec fn drop_count(len: nat) -> nat {
    if len == 1 {
        1
    } else {
        len / 2
    }
}

/// One trimming round on `log`, counted at `count` tokens: what is left of
/// the log, and whether the transcript must be counted again.
pub open spec fn trim_round(log: Seq<LogItem>, count: usize, max_tokens: usize) -> (
    Seq<LogItem>,
    bool,
) {
    if within_budget(count, log.len(), max_tokens) {
        (log, false)
    } else {
        (log.subrange(drop_count(log.len()) as int, log.len() as int), true)
    }
}

/// The whole trimming loop: rounds run while one asks for a new count, and
/// `estimates[i]` is what the engine answered after round `i` (nothing when
/// the estimate failed, which leaves the count as it was). The result is the
/// log and count when the rounds stop, or when the estimates run out.
pub open spec fn trim_loop(
    log: Seq<LogItem>,
    count: usize,
    max_tokens: usize,
    estimates: Seq<Option<usize>>,
) -> (Seq<LogItem>, usize)
    decreases estimates.len(),
{
    let (kept, again) = trim_round(log, count, max_tokens);
    if !again || estimates.len() == 0 {
        (kept, count)
    } else {
        let next = match estimates[0] {
            Some(c) => c,
            None => count,
        };
        trim_loop(kept, next, max_tokens, estimates.subrange(1, estimates.len() as int))
    }
}

/// Law: whatever a log holds after any sequence of records, and whatever the
/// engine answers to each count (a failed count leaving the old one), the
/// trimming loop stops after at most as many rounds as the log has entries,
/// with the count within `max_tokens` or the log empty, and what is left is
/// a contiguous run of the newest entries in their order.
pub proof fn lemma_trim_loop_ends(
    log: Seq<LogItem>,
    count: usize,
    max_tokens: usize,
    estimates: Seq<Option<usize>>,
)
    requires
        estimates.len() >= log.len(),
    ensures
        ({
            let (kept, c) = trim_loop(log, count, max_tokens, estimates);
            within_budget(c, kept.len(), max_tokens) && is_suffix_of(kept, log)
        }),
    decreases estimates.len(),
{
    let (kept, again) = trim_round(log, count, max_tokens);
    if !again {
        assert(log.subrange(0, log.len() as int) =~= log);
    } else {
        let next = match estimates[0] {
            Some(c) => c,
            None => count,
        };
        let rest = estimates.subrange(1, estimates.len() as int);
        lemma_trim_loop_ends(kept, next, max_tokens, rest);
        let k = drop_count(log.len()) as int;
        assert(is_suffix_of(kept, log)) by {
            assert(kept == log.subrange(k, log.len() as int));
        }
        let (fin, _) = trim_loop(kept, next, max_tokens, rest);
        lemma_suffix_transitive(log, kept, fin);
    }
}

/// Law: a log that is a suffix of a suffix is a suffix of the original, so any
/// number of trimming rounds keeps a contiguous run of the newest entries in
/// their order.
pub proof fn lemma_suffix_transitive(a: Seq<LogItem>, b: Seq<LogItem>, c: Seq<LogItem>)
    requires
        is_suffix_of(b, a),
        is_suffix_of(c, b),
    ensures
        is_suffix_of(c, a),
{
    let k1 = choose|k: int| 0 <= k <= a.len() && b == a.subrange(k, a.len() as int);
    let k2 = choose|k: int| 0 <= k <= b.len() && c == b.subrange(k, b.len() as int);
    assert(c =~= a.subrange(k1 + k2, a.len() as int));
}

/// Law: the prompt is a function of the transformer, the log and the partial
/// answer alone; two sessions that agree on them render the same prompt.
pub proof fn lemma_prompt_deterministic(
    s1: GPT3MessageHandler,
    s2: GPT3MessageHandler,
    partial: Seq<char>,
)
    requires
        s1.transformer == s2.transformer,
        s1.message_log@ == s2.message_log@,
    ensures
        s1.prompt(partial) == s2.prompt(partial),
{
}

impl GPT3MessageHandler {
    pub open spec fn transcript(&self) -> Seq<char> {
        transcript_of(self.transformer, self.message_log@)
    }

    pub open spec fn prompt(&self, partial: Seq<char>) -> Seq<char> {
        prompt_of(self.transformer, self.message_log@, partial)
    }

    pub fn new(transformer: TransformerKind) -> (r: GPT3MessageHandler)
        ensures
            r.transformer == transformer,
            r.message_log@.len() == 0,
            r.configuration.is_conversation_default(),
            r.token_count == 0,
    {
        let configuration = transformer.default_gpt3_configuration();
        GPT3MessageHandler { transformer, message_log: Vec::new(), configuration, token_count: 0 }
    }

    pub fn set_engine(&mut self, engine: String)
        ensures
            final(self).configuration.engine == engine,
            final(self).configuration.prompt == old(self).configuration.prompt,
            final(self).configuration.max_tokens == old(self).configuration.max_tokens,
            final(self).configuration.temperature == old(self).configuration.temperature,
            final(self).configuration.top_p == old(self).configuration.top_p,
            final(self).configuration.n == old(self).configuration.n,
            final(self).configuration.logprobs == old(self).configuration.logprobs,
            final(self).configuration.echo == old(self).configuration.echo,
            final(self).configuration.stop == old(self).configuration.stop,
            final(self).configuration.presence_penalty == old(
                self,
            ).configuration.presence_penalty,
            final(self).configuration.frequency_penalty == old(
                self,
            ).configuration.frequency_penalty,
            final(self).configuration.best_of == old(self).configuration.best_of,
            final(self).transformer == old(self).transformer,
            final(self).message_log == old(self).message_log,
            final(self).token_count == old(self).token_count,
    {
        self.configuration.engine = engine;
    }

    /// Appends an entry to the log. The token count is left as it was until
    /// the engine's estimate for the new transcript is applied.
    pub fn record(&mut self, log_item: LogItem)
        ensures
            final(self).message_log@ == old(self).message_log@.push(log_item),
            final(self).transformer == old(self).transformer,
            final(self).configuration == old(self).configuration,
            final(self).token_count == old(self).token_count,
    {
        self.message_log.push(log_item);
    }

    /// The transcript of the whole log.
    pub fn make_string(&self) -> (r: String)
        ensures
            r@ == self.transcript(),
    {
        let mut buf = String::new();
        self.transformer.prepare(&mut buf);
        let mut i: usize = 0;
        while i < self.message_log.len()
            invariant
                i <= self.message_log@.len(),
                buf@ == preamble(self.transformer.transformer()) + lines_of(
                    self.transformer.transformer(),
                    self.message_log@.subrange(0, i as int),
                ),
            decreases self.message_log@.len() - i,
        {
            self.transformer.transform(&mut buf, &self.message_log[i]);
            let ghost t = self.transformer.transformer();
            assert(self.message_log@.subrange(0, i + 1).drop_last() =~= self.message_log@.subrange(
                0,
                i as int,
            ));
            assert(lines_of(t, self.message_log@.subrange(0, i + 1)) == lines_of(
                t,
                self.message_log@.subrange(0, i as int),
            ) + line_of(t, self.message_log@[i as int]));
            i = i + 1;
            assert(buf@ =~= preamble(t) + lines_of(t, self.message_log@.subrange(0, i as int)));
        }
        assert(self.message_log@.subrange(0, self.message_log@.len() as int)
            =~= self.message_log@);
        buf
    }

    /// The prompt for the current log, continuing `partial_completion` if given.
    pub fn make_prompt(&self, partial_completion: Option<&String>) -> (r: String)
        ensures
            r@ == self.prompt(
                match partial_completion {
                    Some(p) => p@,
                    None => Seq::empty(),
                },
            ),
    {
        let mut start = self.make_string();
        self.transformer.append_prompt(&mut start);
        if let Some(completion) = partial_completion {
            start.append(completion.as_str());
        }
        assert(start@ =~= self.prompt(
            match partial_completion {
                Some(p) => p@,
                None => Seq::empty(),
            },
        ));
        start
    }

    pub fn get_stop_params(&self) -> (r: Option<Vec<String>>)
        ensures
            r is Some,
            views_of(r.unwrap()@) == stop_tokens_of(self.transformer.transformer()),
    {
        self.transformer.get_stop_params()
    }

    /// The request that asks the engine for the next piece of an answer:
    /// the prompt continuing `answer_buf`, one candidate out of one, this
    /// session's stop sequences, and the rest taken from `params`.
    pub fn completion_request(&self, params: &CompletionParameters, answer_buf: &String) -> (r:
        CompletionParameters)
        ensures
            r.prompt is Some,
            r.prompt.unwrap()@ == self.prompt(answer_buf@),
            r.n == Some(1usize),
            r.best_of == Some(1usize),
            r.stop is Some,
            views_of(r.stop.unwrap()@) == stop_tokens_of(self.transformer.transformer()),
            r.same_sampling(*params),
            r.max_tokens == params.max_tokens,
            r.logprobs == params.logprobs,
            r.echo == params.echo,
    {
        let prompt = if answer_buf.as_str().is_empty() {
            proof {
                assert(answer_buf@ =~= Seq::<char>::empty());
            }
            self.make_prompt(None)
        } else {
            self.make_prompt(Some(answer_buf))
        };
        CompletionParameters {
            engine: params.engine.clone(),
            prompt: Some(prompt),
            max_tokens: params.max_tokens,
            temperature: params.temperature,
            top_p: params.top_p,
            n: Some(1),
            logprobs: params.logprobs,
            echo: params.echo,
            stop: self.get_stop_params(),
            presence_penalty: params.presence_penalty,
            frequency_penalty: params.frequency_penalty,
            best_of: Some(1),
        }
    }

    /// The request that asks the engine to count the tokens of the current
    /// transcript: the transcript echoed back with per-token log-probabilities
    /// and nothing generated, under this session's configuration.
    pub fn token_count_request(&self) -> (r: CompletionParameters)
        ensures
            r.prompt is Some,
            r.prompt.unwrap()@ == self.transcript(),
            r.logprobs == Some(ESTIMATION_LOGPROBS),
            r.max_tokens == Some(0usize),
            r.echo == Some(true),
            r.same_sampling(self.configuration),
            r.n == self.configuration.n,
            r.best_of == self.configuration.best_of,
            r.stop is Some <==> self.configuration.stop is Some,
            r.stop is Some ==> r.stop.unwrap()@ == self.configuration.stop.unwrap()@,
    {
        let base = self.configuration.copy();
        CompletionParameters {
            prompt: Some(self.make_string()),
            logprobs: Some(ESTIMATION_LOGPROBS),
            max_tokens: Some(0),
            echo: Some(true),
            ..base
        }
    }

    /// Takes in the engine's token count for the transcript; when the engine
    /// gave none, the count stays as it was.
    pub fn update_token_count_raw(&mut self, count: Option<usize>)
        ensures
            final(self).token_count == match count {
                Some(c) => c,
                None => old(self).token_count,
            },
            final(self).transformer == old(self).transformer,
            final(self).message_log == old(self).message_log,
            final(self).configuration == old(self).configuration,
    {
        if let Some(token_count) = count {
            self.token_count = token_count;
        }
    }

    /// One round of keeping the prompt within `max_tokens`. When the count is
    /// within budget or the log is empty, nothing changes and `false` comes
    /// back. Otherwise the oldest half of the entries (rounded down, but at
    /// least one) is dropped and `true` says that the transcript must be
    /// counted again before the next round.
    pub fn ensure_is_safe(&mut self, max_tokens: usize) -> (r: bool)
        ensures
            (final(self).message_log@, r) == trim_round(
                old(self).message_log@,
                old(self).token_count,
                max_tokens,
            ),
            r ==> final(self).message_log@.len() < old(self).message_log@.len(),
            is_suffix_of(final(self).message_log@, old(self).message_log@),
            !r ==> within_budget(
                final(self).token_count,
                final(self).message_log@.len(),
                max_tokens,
            ),
            final(self).token_count == old(self).token_count,
            final(self).transformer == old(self).transformer,
            final(self).configuration == old(self).configuration,
    {
        let len = self.message_log.len();
        if self.token_count <= max_tokens || len == 0 {
            assert(self.message_log@ =~= self.message_log@.subrange(0, len as int));
            return false;
        }
        let dropped = if len == 1 {
            1
        } else {
            len / 2
        };
        let kept = self.message_log.split_off(dropped);
        self.message_log = kept;
        true
    }

    /// Empties the log; the configuration stays. Like `record`, this leaves
    /// the token count as it was until the engine's estimate for the new
    /// transcript is applied with `update_token_count_raw`.
    pub fn reset(&mut self)
        ensures
            final(self).message_log@.len() == 0,
            final(self).transformer == old(self).transformer,
            final(self).configuration == old(self).configuration,
            final(self).token_count == old(self).token_count,
    {
        self.message_log.clear();
    }
}

/// The entry that records a generated answer: its text with surrounding
/// whitespace removed, unless nothing is left of it.
pub fn reply_entry(answer: &str) -> (r: Option<LogItem>)
    ensures
        trimmed(answer@).len() == 0 ==> r is None,
        trimmed(answer@).len() > 0 ==> r is Some && r.unwrap().text@ == trimmed(answer@)
            && r.unwrap().sent_by_ai && r.unwrap().author_name is None
            && r.unwrap().author_nick is None,
{
    let text = trim(answer);
    if text.is_empty() {
        None
    } else {
        Some(LogItem { author_name: None, author_nick: None, text: String::from_str(text), sent_by_ai: true })
    }
}

} // verus!
