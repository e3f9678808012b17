use jordanopotato_rust::{
    build_reply_prompt, build_summarization_prompt, chat_handler, effective_persona,
    generation_event, get_prompt_handler, get_summary_handler, login_handler, prompt_of,
    reply_from_candidates, summary_from_candidates, summary_outcome, update_outcome,
    update_prompt_handler, GenerationError, LoginRequest, MessageRequest, PromptUpdateRequest,
    Store, Turn, TurnAction, TurnError, TurnEvent, TurnPhase, User, DEFAULT_PROMPT, NO_REPLY,
};

fn login(store: &mut Store, name: &str) -> i32 {
    login_handler(store, &LoginRequest { username: name.to_string() }, DEFAULT_PROMPT)
        .unwrap()
        .user_id
}

fn msg(user_id: i32, text: &str) -> MessageRequest {
    MessageRequest { message: text.to_string(), user_id }
}

fn ok(texts: &[&str]) -> Result<Vec<String>, GenerationError> {
    Ok(texts.iter().map(|t| t.to_string()).collect())
}

#[test]
fn reply_prompt_layout() {
    assert_eq!(
        build_reply_prompt("P", "S", "M"),
        "P\n\nConversation so far (summarized):\nS\n\nUser's new message:\n\"M\"\n\nAssistant, please respond:\n"
    );
}

#[test]
fn summarization_prompt_layout() {
    let p = build_summarization_prompt("S", "M", "R");
    assert!(p.starts_with("\nPrevious summary:\nS\n\nUser's latest message:\n\"M\"\n\nAssistant's reply:\n\"R\"\n\nPlease provide an updated very detailed summary of these contents.\n"));
    assert!(p.contains("No less than 10 sentences, use detail\nNo more than 40 sentences if needed\n"));
    assert!(p.ends_with("If repeated themes start occring use this into consideration for your response:\n"));
}

#[test]
fn prompts_are_not_truncated() {
    let long = "x".repeat(100_000);
    assert!(build_reply_prompt("P", &long, &long).len() > 200_000);
    assert!(build_summarization_prompt(&long, &long, &long).len() > 300_000);
}

#[test]
fn candidates_pick_the_first() {
    let c = vec!["one".to_string(), "two".to_string()];
    assert_eq!(reply_from_candidates(&c), "one");
    assert_eq!(summary_from_candidates(&c, "prior"), "one");
    assert_eq!(reply_from_candidates(&vec![]), NO_REPLY);
    assert_eq!(NO_REPLY, "(No reply)");
    assert_eq!(summary_from_candidates(&vec![], "prior"), "prior");
}

#[test]
fn persona_falls_back_to_default() {
    let own = User { id: 1, name: "a".to_string(), prompt: Some("mine".to_string()) };
    let none = User { id: 2, name: "b".to_string(), prompt: None };
    let empty = User { id: 3, name: "c".to_string(), prompt: Some(String::new()) };
    assert_eq!(effective_persona(&own, "dflt"), "mine");
    assert_eq!(effective_persona(&none, "dflt"), "dflt");
    assert_eq!(effective_persona(&empty, "dflt"), "dflt");
    assert_eq!(prompt_of(None, "dflt"), None);
    assert_eq!(prompt_of(Some(none), "dflt"), Some("dflt".to_string()));
}

#[test]
fn outcomes_of_the_small_handlers() {
    let req = PromptUpdateRequest { new_prompt: "np".to_string() };
    assert_eq!(update_outcome(true, req).unwrap().prompt, "np");
    let req = PromptUpdateRequest { new_prompt: "np".to_string() };
    assert!(update_outcome(false, req).is_none());
    assert_eq!(summary_outcome(Some("s".to_string())).unwrap().summary, "s");
    assert!(summary_outcome(None).is_none());
}

#[test]
fn login_twice_gives_same_user() {
    let mut store = Store::new();
    let first = login_handler(&mut store, &LoginRequest { username: "bob".to_string() }, "persona")
        .unwrap();
    assert_eq!(first.user_id, 1);
    assert_eq!(first.summary, None);
    let second = login_handler(&mut store, &LoginRequest { username: "bob".to_string() }, "other")
        .unwrap();
    assert_eq!(second.user_id, first.user_id);
    assert_eq!(get_prompt_handler(&store, 1, "other").unwrap(), "persona");
}

#[test]
fn fresh_user_gets_default_persona_when_queried() {
    let mut store = Store::new();
    let id = login(&mut store, "carol");
    assert_eq!(get_prompt_handler(&store, id, DEFAULT_PROMPT).unwrap(), DEFAULT_PROMPT);
    assert!(get_prompt_handler(&store, id + 1, DEFAULT_PROMPT).is_none());
}

#[test]
fn persona_update_is_used_verbatim() {
    let mut store = Store::new();
    let id = login(&mut store, "dan");
    let r = update_prompt_handler(&mut store, id, PromptUpdateRequest { new_prompt: "Be brief.".to_string() });
    assert_eq!(r.unwrap().prompt, "Be brief.");
    assert_eq!(get_prompt_handler(&store, id, DEFAULT_PROMPT).unwrap(), "Be brief.");
    let missing = update_prompt_handler(&mut store, 9, PromptUpdateRequest { new_prompt: "x".to_string() });
    assert!(missing.is_none());
    // a later login does not reset the persona
    login(&mut store, "dan");
    assert_eq!(get_prompt_handler(&store, id, DEFAULT_PROMPT).unwrap(), "Be brief.");
}

#[test]
fn summary_is_upserted_not_appended() {
    let mut store = Store::new();
    let id = login(&mut store, "erin");
    assert!(get_summary_handler(&store, id).is_none());
    chat_handler(&mut store, &msg(id, "hi"), DEFAULT_PROMPT, ok(&["hello"]), ok(&["S1"])).unwrap();
    assert_eq!(get_summary_handler(&store, id).unwrap().summary, "S1");
    chat_handler(&mut store, &msg(id, "again"), DEFAULT_PROMPT, ok(&["hey"]), ok(&["S2"])).unwrap();
    assert_eq!(get_summary_handler(&store, id).unwrap().summary, "S2");
}

#[test]
fn failed_reply_leaves_summary_unchanged() {
    let mut store = Store::new();
    let id = login(&mut store, "fay");
    chat_handler(&mut store, &msg(id, "a"), DEFAULT_PROMPT, ok(&["r"]), ok(&["kept"])).unwrap();
    let r = chat_handler(&mut store, &msg(id, "b"), DEFAULT_PROMPT, Err(GenerationError::Unavailable), ok(&["lost"]));
    assert_eq!(r.unwrap_err(), TurnError::Internal);
    assert_eq!(store.get_conversation_summary(id), Some("kept".to_string()));
}

#[test]
fn failed_summarization_returns_no_reply() {
    let mut store = Store::new();
    let id = login(&mut store, "gus");
    let r = chat_handler(&mut store, &msg(id, "a"), DEFAULT_PROMPT, ok(&["r"]), Err(GenerationError::Unavailable));
    assert_eq!(r.unwrap_err(), TurnError::Internal);
    assert_eq!(store.get_conversation_summary(id), None);
}

#[test]
fn empty_candidates_degrade_gracefully() {
    let mut store = Store::new();
    let id = login(&mut store, "hal");
    chat_handler(&mut store, &msg(id, "a"), DEFAULT_PROMPT, ok(&["r"]), ok(&["prior"])).unwrap();
    let resp = chat_handler(&mut store, &msg(id, "b"), DEFAULT_PROMPT, ok(&[]), ok(&[])).unwrap();
    assert_eq!(resp.reply, "(No reply)");
    assert_eq!(resp.user_id, id);
    assert_eq!(store.get_conversation_summary(id), Some("prior".to_string()));
}

#[test]
fn empty_summary_candidates_on_first_turn_store_empty_summary() {
    let mut store = Store::new();
    let id = login(&mut store, "ida");
    let resp = chat_handler(&mut store, &msg(id, "a"), DEFAULT_PROMPT, ok(&["r"]), ok(&[])).unwrap();
    assert_eq!(resp.reply, "r");
    assert_eq!(store.get_conversation_summary(id), Some(String::new()));
}

#[test]
fn unknown_user_turn_is_unauthorized() {
    let mut store = Store::new();
    let id = login(&mut store, "jo");
    let r = chat_handler(&mut store, &msg(id + 5, "a"), DEFAULT_PROMPT, ok(&["r"]), ok(&["s"]));
    assert_eq!(r.unwrap_err(), TurnError::Unauthorized);
    assert_eq!(store.get_conversation_summary(id), None);
    assert_eq!(store.get_conversation_summary(id + 5), None);
    assert!(store.get_user_by_id(id + 5).is_none());
}

#[test]
fn alice_scenario() {
    let mut store = Store::new();
    let login = login_handler(&mut store, &LoginRequest { username: "alice".to_string() }, DEFAULT_PROMPT)
        .unwrap();
    assert_eq!(login.user_id, 1);
    assert_eq!(login.summary, None);

    let resp = chat_handler(
        &mut store,
        &msg(1, "I feel stuck"),
        DEFAULT_PROMPT,
        ok(&["Let's explore that."]),
        ok(&["Alice feels stuck in her career."]),
    )
    .unwrap();
    assert_eq!(resp.reply, "Let's explore that.");
    assert_eq!(resp.user_id, 1);
    assert_eq!(get_summary_handler(&store, 1).unwrap().summary, "Alice feels stuck in her career.");

    // the second message's reply request holds the prior summary and the message
    let (turn, action) = Turn::start(&msg(1, "Any advice?"), DEFAULT_PROMPT);
    assert!(matches!(action, TurnAction::LoadUser(1)));
    let (turn, _) = turn.advance(TurnEvent::UserLoaded(store.get_user_by_id(1)));
    let (_, action) = turn.advance(TurnEvent::SummaryLoaded(store.get_conversation_summary(1)));
    match action {
        TurnAction::Generate(p) => {
            assert!(p.starts_with(DEFAULT_PROMPT));
            assert!(p.contains("Alice feels stuck in her career."));
            assert!(p.contains("\"Any advice?\""));
        }
        other => panic!("unexpected action {:?}", other),
    }

    chat_handler(&mut store, &msg(1, "Any advice?"), DEFAULT_PROMPT, ok(&["Start small."]), ok(&["Alice wants small steps."]))
        .unwrap();
    assert_eq!(get_summary_handler(&store, 1).unwrap().summary, "Alice wants small steps.");
}

#[test]
fn machine_walks_a_whole_turn() {
    let user = User { id: 4, name: "k".to_string(), prompt: Some("P".to_string()) };
    let (t, _) = Turn::start(&msg(4, "M"), "D");
    let (t, a) = t.advance(TurnEvent::UserLoaded(Some(user)));
    assert!(matches!(a, TurnAction::LoadSummary(4)));
    let (t, a) = t.advance(TurnEvent::SummaryLoaded(None));
    match a {
        TurnAction::Generate(p) => assert_eq!(p, build_reply_prompt("P", "", "M")),
        other => panic!("unexpected action {:?}", other),
    }
    let (t, a) = t.advance(generation_event(ok(&["R"])));
    match a {
        TurnAction::Generate(p) => assert_eq!(p, build_summarization_prompt("", "M", "R")),
        other => panic!("unexpected action {:?}", other),
    }
    let (t, a) = t.advance(generation_event(ok(&["N"])));
    match a {
        TurnAction::SaveSummary(4, s) => assert_eq!(s, "N"),
        other => panic!("unexpected action {:?}", other),
    }
    let (t, a) = t.advance(TurnEvent::SummarySaved);
    match a {
        TurnAction::Respond(r) => {
            assert_eq!(r.reply, "R");
            assert_eq!(r.user_id, 4);
        }
        other => panic!("unexpected action {:?}", other),
    }
    assert!(matches!(t.phase, TurnPhase::Done));
}

#[test]
fn machine_rejects_failures_and_stray_events() {
    let (t, _) = Turn::start(&msg(1, "M"), "D");
    let (t, a) = t.advance(TurnEvent::UserLoaded(None));
    assert!(matches!(a, TurnAction::Reject(TurnError::Unauthorized)));
    let (_, a) = t.advance(TurnEvent::SummarySaved);
    assert!(matches!(a, TurnAction::Reject(TurnError::Internal)));

    let (t, _) = Turn::start(&msg(1, "M"), "D");
    let (_, a) = t.advance(TurnEvent::StoreFailed);
    assert!(matches!(a, TurnAction::Reject(TurnError::Internal)));

    let (t, _) = Turn::start(&msg(1, "M"), "D");
    let (_, a) = t.advance(TurnEvent::Generated(vec!["x".to_string()]));
    assert!(matches!(a, TurnAction::Reject(TurnError::Internal)));

    let user = User { id: 1, name: "k".to_string(), prompt: None };
    let (t, _) = Turn::start(&msg(1, "M"), "D");
    let (t, _) = t.advance(TurnEvent::UserLoaded(Some(user)));
    let (t, _) = t.advance(TurnEvent::SummaryLoaded(Some("S".to_string())));
    let (t, a) = t.advance(generation_event(Err(GenerationError::Unavailable)));
    assert!(matches!(a, TurnAction::Reject(TurnError::Internal)));
    assert!(matches!(t.phase, TurnPhase::Done));
}
