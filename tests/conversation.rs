use convobot::completion::{
    get_engine_url, next_completion_step, token_count_from_response, Choice, CompletionError,
    CompletionResponse, CompletionStep, FinishReason, LogProbs,
};
use convobot::conversation::{LogItem, Transformer, TransformerKind};
use convobot::gpt2::GPT2MessageHandler;
use convobot::gpt3::{reply_entry, GPT3MessageHandler, TOKEN_BUDGET};

fn item(name: Option<&str>, nick: Option<&str>, text: &str, ai: bool) -> LogItem {
    LogItem {
        author_name: name.map(String::from),
        author_nick: nick.map(String::from),
        text: String::from(text),
        sent_by_ai: ai,
    }
}

fn conversation(ai_name: &str, context: Option<&str>) -> TransformerKind {
    TransformerKind::Conversation(Transformer {
        ai_name: String::from(ai_name),
        context: context.map(String::from),
    })
}

fn choice(text: &str, reason: Option<FinishReason>) -> Choice {
    Choice { text: String::from(text), index: 0, logprobs: None, finish_reason: reason }
}

fn success(choices: Vec<Choice>) -> CompletionResponse {
    CompletionResponse::Success { choices }
}

#[test]
fn session_conversation_to_string() {
    let mut session = GPT3MessageHandler::new(TransformerKind::Conversation(Transformer {
        ai_name: String::from("Ai"),
        context: Some(String::from("context here!")),
    }));
    session.record(LogItem {
        author_name: Some(String::from("foo")),
        author_nick: Some(String::from("foo-nick")),
        text: String::from("bar"),
        sent_by_ai: false,
    });
    session.record(LogItem {
        author_name: Some(String::from("fredi")),
        author_nick: Some(String::from("foo-nick")),
        text: String::from("hello, world"),
        sent_by_ai: false,
    });
    session.record(LogItem {
        author_name: None,
        author_nick: None,
        text: String::from("hello, human"),
        sent_by_ai: true,
    });
    let rendered = session.make_string();
    assert_eq!(
        rendered,
        "context here!\n\nUser (foo-nick): bar\nUser (foo-nick): hello, world\nAi: hello, human\n"
    );
    assert_eq!(rendered.len(), 83);
}

#[test]
fn user_identifier_prefers_nickname_then_name() {
    assert_eq!(item(Some("foo"), Some("nick"), "x", false).user_identifier(), "User (nick)");
    assert_eq!(item(Some("foo"), None, "x", false).user_identifier(), "User (foo)");
    assert_eq!(item(None, None, "x", false).user_identifier(), "Somebody");
}

#[test]
fn prompt_round_trip_ends_with_cue() {
    let mut session = GPT3MessageHandler::new(conversation("Bot", None));
    session.record(item(Some("A"), None, "hi", false));
    session.record(item(Some("B"), None, "hello", false));
    session.record(item(None, None, "hey", true));
    let prompt = session.make_prompt(None);
    assert_eq!(prompt, "User (A): hi\nUser (B): hello\nBot: hey\nBot: ");
    let lines: Vec<&str> = prompt.split('\n').collect();
    assert_eq!(lines[lines.len() - 2], "Bot: hey");
    assert_eq!(lines[lines.len() - 1], "Bot: ");
}

#[test]
fn prompt_is_deterministic_and_continues_partial() {
    let mut session = GPT3MessageHandler::new(conversation("Bot", Some("A chat.")));
    session.record(item(None, Some("n"), "hi", false));
    let partial = String::from("Hel");
    let first = session.make_prompt(Some(&partial));
    let second = session.make_prompt(Some(&partial));
    assert_eq!(first, second);
    assert_eq!(first, "A chat.\n\nUser (n): hi\nBot: Hel");
}

#[test]
fn empty_session_renders_only_preamble() {
    let session = GPT3MessageHandler::new(conversation("Bot", None));
    assert_eq!(session.make_string(), "");
    assert_eq!(session.make_prompt(None), "Bot: ");
}

#[test]
fn new_session_has_conversation_defaults() {
    let session = GPT3MessageHandler::new(conversation("Bot", None));
    let c = &session.configuration;
    assert_eq!(c.engine, "");
    assert_eq!(c.temperature, Some(900));
    assert_eq!(c.top_p, Some(1000));
    assert_eq!(c.frequency_penalty, Some(300));
    assert_eq!(c.presence_penalty, Some(600));
    assert_eq!(c.best_of, Some(1));
    assert_eq!(c.max_tokens, None);
    assert!(c.stop.is_none());
    assert_eq!(session.token_count, 0);
    assert!(session.message_log.is_empty());
}

#[test]
fn set_engine_changes_only_engine() {
    let mut session = GPT3MessageHandler::new(conversation("Bot", None));
    session.set_engine(String::from("davinci"));
    assert_eq!(session.configuration.engine, "davinci");
    assert_eq!(session.configuration.temperature, Some(900));
}

#[test]
fn stop_params_name_assistant_newline_and_human_marker() {
    let session = GPT3MessageHandler::new(conversation("Bot", None));
    assert_eq!(
        session.get_stop_params(),
        Some(vec![String::from("Bot"), String::from("\n"), String::from("User ")])
    );
}

#[test]
fn context_can_be_read_and_replaced() {
    let mut kind = conversation("Bot", None);
    assert_eq!(kind.get_context(), &None);
    kind.set_context("A story.");
    assert_eq!(kind.get_context(), &Some(String::from("A story.")));
}

#[test]
fn completion_request_carries_prompt_and_stops() {
    let mut session = GPT3MessageHandler::new(conversation("Bot", None));
    session.set_engine(String::from("curie"));
    session.record(item(Some("A"), None, "hi", false));
    let params = session.configuration.copy();
    let first = session.completion_request(&params, &String::new());
    assert_eq!(first.prompt, Some(String::from("User (A): hi\nBot: ")));
    assert_eq!(first.n, Some(1));
    assert_eq!(first.best_of, Some(1));
    assert_eq!(first.engine, "curie");
    assert_eq!(first.temperature, Some(900));
    assert_eq!(first.stop.as_ref().map(|s| s.len()), Some(3));
    let next = session.completion_request(&params, &String::from("Hello"));
    assert_eq!(next.prompt, Some(String::from("User (A): hi\nBot: Hello")));
}

#[test]
fn token_count_request_echoes_transcript() {
    let mut session = GPT3MessageHandler::new(conversation("Bot", None));
    session.record(item(Some("A"), None, "hi", false));
    let req = session.token_count_request();
    assert_eq!(req.prompt, Some(String::from("User (A): hi\n")));
    assert_eq!(req.max_tokens, Some(0));
    assert_eq!(req.echo, Some(true));
    assert_eq!(req.logprobs, Some(10));
    assert_eq!(req.temperature, Some(900));
}

#[test]
fn token_count_comes_from_first_candidate_breakdown() {
    let with_tokens = success(vec![Choice {
        text: String::new(),
        index: 0,
        logprobs: Some(LogProbs {
            tokens: vec![String::from("a"), String::from("b"), String::from("c")],
        }),
        finish_reason: None,
    }]);
    assert_eq!(token_count_from_response(&with_tokens), Some(3));
    assert_eq!(token_count_from_response(&success(vec![choice("x", None)])), None);
    assert_eq!(token_count_from_response(&success(vec![])), None);
    let refused = CompletionResponse::Error {
        error: CompletionError { code: None, message: String::from("no"), kind: String::from("x") },
    };
    assert_eq!(token_count_from_response(&refused), None);
}

#[test]
fn estimate_updates_count_only_when_given() {
    let mut session = GPT3MessageHandler::new(conversation("Bot", None));
    session.update_token_count_raw(Some(42));
    assert_eq!(session.token_count, 42);
    session.update_token_count_raw(None);
    assert_eq!(session.token_count, 42);
}

#[test]
fn trimming_drops_oldest_half_until_within_budget() {
    let mut session = GPT3MessageHandler::new(conversation("Bot", None));
    for i in 0..5 {
        session.record(item(Some("A"), None, &format!("line {}", i), false));
    }
    session.update_token_count_raw(Some(600));
    assert!(session.ensure_is_safe(TOKEN_BUDGET));
    let texts: Vec<&str> = session.message_log.iter().map(|i| i.text.as_str()).collect();
    assert_eq!(texts, vec!["line 2", "line 3", "line 4"]);
    session.update_token_count_raw(Some(550));
    assert!(session.ensure_is_safe(TOKEN_BUDGET));
    let texts: Vec<&str> = session.message_log.iter().map(|i| i.text.as_str()).collect();
    assert_eq!(texts, vec!["line 3", "line 4"]);
    session.update_token_count_raw(Some(500));
    assert!(!session.ensure_is_safe(TOKEN_BUDGET));
    assert_eq!(session.message_log.len(), 2);
}

#[test]
fn trimming_stops_on_empty_log() {
    let mut session = GPT3MessageHandler::new(conversation("Bot", None));
    session.update_token_count_raw(Some(10_000));
    assert!(!session.ensure_is_safe(TOKEN_BUDGET));
}

#[test]
fn single_entry_over_budget_is_dropped() {
    let mut session = GPT3MessageHandler::new(conversation("Bot", None));
    session.record(item(Some("A"), None, "long", false));
    session.update_token_count_raw(Some(501));
    assert!(session.ensure_is_safe(TOKEN_BUDGET));
    assert!(session.message_log.is_empty());
    assert!(!session.ensure_is_safe(TOKEN_BUDGET));
}

#[test]
fn trimming_loop_ends_when_count_never_falls() {
    let mut session = GPT3MessageHandler::new(conversation("Bot", None));
    for i in 0..9 {
        session.record(item(Some("A"), None, &format!("line {}", i), false));
    }
    session.update_token_count_raw(Some(900));
    let mut rounds = 0;
    while session.ensure_is_safe(TOKEN_BUDGET) {
        rounds += 1;
        session.update_token_count_raw(None);
    }
    assert!(session.message_log.is_empty());
    assert_eq!(rounds, 5);
}

#[test]
fn reset_clears_log_and_keeps_configuration() {
    let mut session = GPT3MessageHandler::new(conversation("Bot", None));
    session.set_engine(String::from("ada"));
    session.record(item(Some("A"), None, "hi", false));
    session.reset();
    assert!(session.message_log.is_empty());
    assert_eq!(session.configuration.engine, "ada");
    session.reset();
    assert!(session.message_log.is_empty());
}

#[test]
fn generation_concatenates_length_cut_candidates() {
    let mut buf = String::new();
    for text in ["a", "b", "c"] {
        match next_completion_step(buf, &success(vec![choice(text, Some(FinishReason::Length))])) {
            CompletionStep::Continue(next) => buf = next,
            CompletionStep::Finished(_) => panic!("a cut-off candidate must not end the loop"),
        }
    }
    assert_eq!(buf, "abc");
    match next_completion_step(buf, &success(vec![choice("!", Some(FinishReason::Stop))])) {
        CompletionStep::Finished(Some(answer)) => assert_eq!(answer, "abc!"),
        _ => panic!("a stop must end the loop with the answer"),
    }
}

#[test]
fn engine_error_gives_no_answer() {
    let refused = CompletionResponse::Error {
        error: CompletionError {
            code: Some(400),
            message: String::from("bad request"),
            kind: String::from("invalid_request_error"),
        },
    };
    match next_completion_step(String::new(), &refused) {
        CompletionStep::Finished(None) => {}
        _ => panic!("an engine error must end the loop without an answer"),
    }
}

#[test]
fn missing_candidate_keeps_looping() {
    match next_completion_step(String::from("so far"), &success(vec![])) {
        CompletionStep::Continue(buf) => assert_eq!(buf, "so far"),
        _ => panic!("no candidate must not end the loop"),
    }
}

#[test]
fn reply_entry_trims_and_rejects_blank() {
    let entry = reply_entry("  hello there \n").expect("a reply");
    assert_eq!(entry.text, "hello there");
    assert!(entry.sent_by_ai);
    assert!(entry.author_name.is_none() && entry.author_nick.is_none());
    assert!(reply_entry(" \n\t ").is_none());
    assert!(reply_entry("\u{3000}\u{a0}\u{2028}").is_none());
    assert_eq!(reply_entry("\u{85}ok\u{202f}").expect("a reply").text, "ok");
    assert!(reply_entry("").is_none());
}

#[test]
fn engine_url_names_engine() {
    assert_eq!(
        get_engine_url("davinci"),
        "https://api.openai.com/v1/engines/davinci/completions"
    );
}

#[test]
fn local_session_starts_empty() {
    let handler = GPT2MessageHandler::new(conversation("Bot", None));
    assert!(handler.message_log.is_empty());
}
