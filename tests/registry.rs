use convobot::commands::{
    check_engine_kind, check_transform_kind, conversation_transformer, engine_from_arg,
    is_qualifying_message, message_text,
};
use convobot::conversation::{LogItem, Transformer, TransformerKind};
use convobot::debounce::{DebounceAction, DebounceState, INITIAL_DELAY_MS, REFRESH_DELAY_MS};
use convobot::error::Error;
use convobot::gpt2::GPT2MessageHandler;
use convobot::gpt3::GPT3MessageHandler;
use convobot::session::{
    get_chat_target_from_message, ChatTarget, Session, SessionError, SessionRegistry,
};

fn target(guild: u64, channel: u64) -> ChatTarget {
    ChatTarget { guild_id: guild, channel_id: channel }
}

fn remote_session(ai_name: &str) -> Session {
    Session::GPT3(GPT3MessageHandler::new(TransformerKind::Conversation(Transformer {
        ai_name: String::from(ai_name),
        context: None,
    })))
}

fn human(text: &str) -> LogItem {
    LogItem {
        author_name: Some(String::from("A")),
        author_nick: None,
        text: String::from(text),
        sent_by_ai: false,
    }
}

fn log_len(registry: &SessionRegistry, t: ChatTarget) -> usize {
    match registry.get(t) {
        Some(Session::GPT3(s)) => s.message_log.len(),
        _ => panic!("expected a remote session"),
    }
}

#[test]
fn enabling_twice_is_refused_and_keeps_log() {
    let mut registry = SessionRegistry::new();
    let t = target(1, 2);
    assert_eq!(registry.create(t, remote_session("First")), Ok(()));
    assert_eq!(registry.record(t, human("hi")), Ok(()));
    assert_eq!(
        registry.create(t, remote_session("Second")),
        Err(SessionError::AlreadyExists)
    );
    assert_eq!(log_len(&registry, t), 1);
    match registry.get(t) {
        Some(Session::GPT3(s)) => match &s.transformer {
            TransformerKind::Conversation(c) => assert_eq!(c.ai_name, "First"),
        },
        _ => panic!("expected a remote session"),
    }
}

#[test]
fn targets_are_independent() {
    let mut registry = SessionRegistry::new();
    assert_eq!(registry.create(target(1, 2), remote_session("Bot")), Ok(()));
    assert_eq!(registry.create(target(1, 3), remote_session("Bot")), Ok(()));
    assert_eq!(registry.create(target(2, 2), remote_session("Bot")), Ok(()));
    assert_eq!(registry.record(target(1, 3), human("x")), Ok(()));
    assert_eq!(log_len(&registry, target(1, 2)), 0);
    assert_eq!(log_len(&registry, target(1, 3)), 1);
    assert!(registry.contains_key(target(2, 2)));
    assert!(!registry.contains_key(target(2, 3)));
}

#[test]
fn missing_session_is_not_found() {
    let mut registry = SessionRegistry::new();
    let t = target(5, 6);
    assert_eq!(registry.reset(t), Err(SessionError::NotFound));
    assert_eq!(registry.record(t, human("x")), Err(SessionError::NotFound));
    assert!(registry.remove(t).is_none());
    assert!(registry.get(t).is_none());
}

#[test]
fn reset_clears_only_that_log() {
    let mut registry = SessionRegistry::new();
    let a = target(1, 1);
    let b = target(1, 2);
    registry.create(a, remote_session("Bot")).unwrap();
    registry.create(b, remote_session("Bot")).unwrap();
    registry.record(a, human("1")).unwrap();
    registry.record(b, human("2")).unwrap();
    assert_eq!(registry.reset(a), Ok(()));
    assert_eq!(log_len(&registry, a), 0);
    assert_eq!(log_len(&registry, b), 1);
}

#[test]
fn disable_removes_and_allows_enabling_again() {
    let mut registry = SessionRegistry::new();
    let t = target(3, 4);
    registry.create(t, remote_session("Bot")).unwrap();
    assert!(registry.remove(t).is_some());
    assert!(!registry.contains_key(t));
    assert_eq!(registry.create(t, remote_session("Bot")), Ok(()));
}

#[test]
fn reset_clears_local_log() {
    let mut local = GPT2MessageHandler::new(TransformerKind::Conversation(Transformer {
        ai_name: String::from("Bot"),
        context: None,
    }));
    local.message_log.push(human("x"));
    let mut session = Session::GPT2(local);
    session.reset();
    match session {
        Session::GPT2(s) => assert!(s.message_log.is_empty()),
        _ => panic!("expected a local session"),
    }
}

#[test]
fn many_enables_one_wins() {
    let mut registry = SessionRegistry::new();
    let t = target(4, 4);
    let results: Vec<_> = ["A", "B", "C", "D"]
        .iter()
        .map(|n| registry.create(t, remote_session(n)))
        .collect();
    assert_eq!(results[0], Ok(()));
    assert!(results[1..].iter().all(|r| *r == Err(SessionError::AlreadyExists)));
    match registry.get(t) {
        Some(Session::GPT3(s)) => match &s.transformer {
            TransformerKind::Conversation(c) => assert_eq!(c.ai_name, "A"),
        },
        _ => panic!("expected a remote session"),
    }
}

#[test]
fn local_sessions_keep_no_log() {
    let mut registry = SessionRegistry::new();
    let t = target(9, 9);
    let local = GPT2MessageHandler::new(TransformerKind::Conversation(Transformer {
        ai_name: String::from("Bot"),
        context: None,
    }));
    registry.create(t, Session::GPT2(local)).unwrap();
    assert_eq!(registry.record(t, human("x")), Ok(()));
    match registry.get(t) {
        Some(Session::GPT2(s)) => assert!(s.message_log.is_empty()),
        _ => panic!("expected a local session"),
    }
}

#[test]
fn session_error_messages() {
    assert_eq!(SessionError::AlreadyExists.message(), "Chat target already has a session");
    assert_eq!(SessionError::NotFound.message(), "Chat target does not has a session");
    assert_eq!(Error::Surf(String::from("timeout")).message(), "Network error: timeout");
}

#[test]
fn direct_messages_have_no_target() {
    assert_eq!(get_chat_target_from_message(None, 7), None);
    assert_eq!(get_chat_target_from_message(Some(3), 7), Some(target(3, 7)));
}

#[test]
fn isolated_message_fires_once_after_initial_delay() {
    let mut state = DebounceState::new();
    assert!(state.is_idle());
    assert_eq!(state.on_message(1_000), DebounceAction::Start(1_000 + INITIAL_DELAY_MS));
    assert_eq!(state.on_timer(3_499), DebounceAction::Wait(3_500));
    assert_eq!(state.on_timer(3_500), DebounceAction::Fire);
    assert_eq!(state.on_timer(4_000), DebounceAction::Nothing);
    assert_eq!(state.on_timer(9_000), DebounceAction::Nothing);
    assert_eq!(state.on_generation_done(9_500), DebounceAction::Nothing);
    assert!(state.is_idle());
}

#[test]
fn burst_fires_once_after_last_refresh() {
    let mut state = DebounceState::new();
    let times = [0u64, 1_000, 2_000, 3_400];
    let mut fired = 0;
    let mut started = 0;
    for &t in &times {
        if state.on_timer(t) == DebounceAction::Fire {
            fired += 1;
        }
        if let DebounceAction::Start(_) = state.on_message(t) {
            started += 1;
        }
    }
    assert_eq!(fired, 0);
    assert_eq!(started, 1);
    assert_eq!(state.on_timer(3_400 + REFRESH_DELAY_MS - 1), DebounceAction::Wait(4_900));
    assert_eq!(state.on_timer(3_400 + REFRESH_DELAY_MS), DebounceAction::Fire);
    assert_eq!(state.on_timer(10_000), DebounceAction::Nothing);
}

#[test]
fn message_during_generation_starts_next_countdown() {
    let mut state = DebounceState::new();
    state.on_message(0);
    assert_eq!(state.on_timer(2_500), DebounceAction::Fire);
    assert_eq!(state.on_message(3_000), DebounceAction::Nothing);
    assert_eq!(state.on_timer(8_000), DebounceAction::Nothing);
    assert_eq!(state.on_generation_done(4_000), DebounceAction::Wait(6_500));
    assert_eq!(state.on_timer(6_500), DebounceAction::Fire);
}

#[test]
fn deadline_is_held_at_largest_instant() {
    let mut state = DebounceState::new();
    assert_eq!(state.on_message(u64::MAX - 1), DebounceAction::Start(u64::MAX));
}

#[test]
fn engine_argument_defaults_to_davinci() {
    assert_eq!(engine_from_arg(Some(String::from("DeFault"))).unwrap(), "davinci");
    assert_eq!(engine_from_arg(Some(String::from("curie"))).unwrap(), "curie");
    assert_eq!(
        engine_from_arg(None).unwrap_err().0,
        "Missing engine (if you aren't sure, use `default`)"
    );
}

#[test]
fn only_remote_engine_can_be_enabled() {
    assert!(check_engine_kind("GPT3").is_ok());
    assert_eq!(check_engine_kind("gpt2").unwrap_err().0, "No complection engine found for gpt2");
    assert!(check_transform_kind("Convo").is_ok());
    assert!(check_transform_kind("CONVERSATION").is_ok());
    assert_eq!(check_transform_kind("story").unwrap_err().0, "Invalid conversation type");
}

#[test]
fn conversation_arguments_build_transformer() {
    let kind = conversation_transformer(
        Some(String::from("_")),
        String::from("Botty"),
        "  `\"You are {name}, a helper.\"`  ",
    );
    let TransformerKind::Conversation(t) = kind;
    assert_eq!(t.ai_name, "Botty");
    assert_eq!(t.context, Some(String::from("You are Botty, a helper.")));

    let kind = conversation_transformer(Some(String::from("Ada")), String::from("Botty"), "   ");
    let TransformerKind::Conversation(t) = kind;
    assert_eq!(t.ai_name, "Ada");
    assert_eq!(t.context, None);

    let kind = conversation_transformer(None, String::from("Botty"), "");
    let TransformerKind::Conversation(t) = kind;
    assert_eq!(t.ai_name, "Botty");
}

#[test]
fn qualifying_messages_are_marked_prompts() {
    assert!(is_qualifying_message(false, "> hello"));
    assert!(!is_qualifying_message(true, "> hello"));
    assert!(!is_qualifying_message(false, "hello"));
    assert!(!is_qualifying_message(false, "!enable gpt3"));
    assert!(!is_qualifying_message(false, ""));
    assert_eq!(message_text(">>> hi > there"), " hi > there");
    assert_eq!(message_text("plain"), "plain");
}
