use kaijutsu_app::llm::{
    build_history, handle_prompt, handle_reply, Content, Conversation, LlmResponse, LlmSettings,
    Message, Role, MAX_TOKENS,
};

fn settings() -> LlmSettings {
    LlmSettings::for_model("some-model", "model:some")
}

fn said(author: &str, text: &str) -> Message {
    Message { author: author.to_string(), content: Content::Text(text.to_string()) }
}

fn conversation() -> Conversation {
    Conversation {
        participants: vec!["user:amy".to_string()],
        messages: vec![
            said("user:amy", "hi"),
            Message {
                author: "model:some".to_string(),
                content: Content::Thinking("hmm".to_string()),
            },
            said("model:some", "hello"),
        ],
    }
}

fn text_of(message: &Message) -> &str {
    match &message.content {
        Content::Text(text) => text,
        other => panic!("expected text, got {other:?}"),
    }
}

#[test]
fn settings_name_the_model() {
    let settings = settings();
    assert_eq!(settings.default_model, "some-model");
    assert_eq!(settings.model_participant_id, "model:some");
    assert!(settings.system_prompt.starts_with("You are a helpful AI assistant"));
    assert_eq!(MAX_TOKENS, 4096);
}

#[test]
fn the_history_is_what_was_said_by_role() {
    let turns = build_history(&conversation());
    let turns: Vec<(Role, &str)> = turns.iter().map(|t| (t.role, t.text.as_str())).collect();
    assert_eq!(turns, vec![(Role::User, "hi"), (Role::Assistant, "hello")]);
}

#[test]
fn a_blank_prompt_is_skipped() {
    let mut conv = conversation();
    assert!(handle_prompt(&mut conv, " \n\t ", &settings(), "amy").is_none());
    assert_eq!((conv.messages.len(), conv.participants.len()), (3, 1));
}

/// The prompt is said by the user, and is the last turn the model gets.
#[test]
fn the_prompt_is_the_last_turn() {
    let mut conv = conversation();
    let turns = handle_prompt(&mut conv, "what now?", &settings(), "amy").expect("turns");
    let last = turns.last().expect("a turn");
    assert_eq!((last.role, last.text.as_str()), (Role::User, "what now?"));
    assert_eq!(conv.messages.last().map(|m| m.author.as_str()), Some("user:amy"));
    assert_eq!(conv.participants, vec!["user:amy".to_string(), "model:some".to_string()]);
    handle_prompt(&mut conv, "and then?", &settings(), "amy");
    assert_eq!(conv.participants.len(), 2, "the model joins once");
}

#[test]
fn a_reply_is_said_part_by_part() {
    let mut conv = conversation();
    let reply = Ok(LlmResponse {
        content: "done".to_string(),
        blocks: vec![
            Content::Thinking("let me see".to_string()),
            Content::ToolUse {
                id: "t1".to_string(),
                name: "ls".to_string(),
                input: "{}".to_string(),
            },
            Content::Text("done".to_string()),
        ],
    });
    handle_reply(&mut conv, "model:some", &reply);
    assert_eq!(conv.messages.len(), 6);
    assert!(matches!(conv.messages[4].content, Content::ToolUse { .. }));
    assert_eq!(text_of(&conv.messages[5]), "done");
}

#[test]
fn a_reply_without_parts_is_its_text() {
    let mut conv = conversation();
    let reply = Ok(LlmResponse { content: "plain".to_string(), blocks: Vec::new() });
    handle_reply(&mut conv, "model:some", &reply);
    assert_eq!(text_of(&conv.messages[3]), "plain");
    assert_eq!(conv.messages[3].author, "model:some");
}

#[test]
fn a_failure_is_told() {
    let mut conv = conversation();
    handle_reply(&mut conv, "model:some", &Err("no route".to_string()));
    assert_eq!(text_of(&conv.messages[3]), "❌ Error: no route");
}
