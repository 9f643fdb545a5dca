use qmulo_chat::ContextError;
use qmulo_chat::ConversationContext;
use qmulo_chat::NetworkError;
use qmulo_chat::Role;

fn snapshot(ctx: &ConversationContext) -> Vec<(Role, String)> {
    let mut v = Vec::new();
    let mut i = 0;
    while i < ctx.len() {
        let m = ctx.message_at(i);
        v.push((m.role, m.content.clone()));
        i += 1;
    }
    v
}

#[test]
fn new_context_holds_exactly_the_system_prompt() {
    let ctx = ConversationContext::new(String::from("be terse"));
    assert_eq!(ctx.len(), 1);
    assert_eq!(ctx.message_at(0).role, Role::System);
    assert_eq!(ctx.message_at(0).content, "be terse");
}

#[test]
fn appends_keep_chronological_order() {
    let mut ctx = ConversationContext::new(String::from("sys"));
    ctx.append_user(String::from("question"));
    ctx.append_assistant(String::from("answer"));
    ctx.append_system(String::from("hint"));
    assert_eq!(ctx.len(), 4);
    assert_eq!(ctx.message_at(1).role, Role::User);
    assert_eq!(ctx.message_at(2).role, Role::Assistant);
    assert_eq!(ctx.message_at(3).role, Role::System);
    assert_eq!(ctx.last().content, "hint");
}

#[test]
fn set_system_overwrites_only_position_zero() {
    let mut ctx = ConversationContext::new(String::from("old prompt"));
    ctx.append_user(String::from("q"));
    ctx.set_system(String::from("new prompt"));
    assert_eq!(ctx.len(), 2);
    assert_eq!(ctx.message_at(0).role, Role::System);
    assert_eq!(ctx.message_at(0).content, "new prompt");
    assert_eq!(ctx.message_at(1).content, "q");
}

#[test]
fn remove_last_on_lone_system_prompt_fails_unchanged() {
    let mut ctx = ConversationContext::new(String::from("sys"));
    let before = snapshot(&ctx);
    let r = ctx.remove_last();
    assert_eq!(r, Err(ContextError::SystemPromptProtected));
    assert_eq!(snapshot(&ctx), before);
}

#[test]
fn remove_last_drops_only_the_newest() {
    let mut ctx = ConversationContext::new(String::from("sys"));
    ctx.append_user(String::from("q"));
    ctx.append_assistant(String::from("a"));
    assert_eq!(ctx.remove_last(), Ok(()));
    assert_eq!(ctx.len(), 2);
    assert_eq!(ctx.last().content, "q");
}

#[test]
fn encode_request_serializes_in_order() {
    let mut ctx = ConversationContext::new(String::from("sys"));
    ctx.append_user(String::from("hi"));
    assert_eq!(
        ctx.encode_request(),
        "[{\"role\":\"system\",\"content\":\"sys\"},{\"role\":\"user\",\"content\":\"hi\"}]"
    );
}

#[test]
fn encode_request_escapes_content() {
    let ctx = ConversationContext::new(String::from("a\"b\\c\nd\te\u{1}f"));
    assert_eq!(
        ctx.encode_request(),
        "[{\"role\":\"system\",\"content\":\"a\\\"b\\\\c\\nd\\te\\u0001f\"}]"
    );
}

#[test]
fn well_formed_response_appends_exactly_the_output() {
    let mut ctx = ConversationContext::new(String::from("sys"));
    let r = ctx.apply_response("{\"output\": \"the reply\", \"time\": 0.25}");
    assert_eq!(r, Ok(()));
    assert_eq!(ctx.len(), 2);
    assert_eq!(ctx.last().role, Role::Assistant);
    assert_eq!(ctx.last().content, "the reply");
}

#[test]
fn response_members_in_either_order() {
    let mut ctx = ConversationContext::new(String::from("sys"));
    assert_eq!(ctx.apply_response("{ \"time\": 1e-3, \"output\": \"ok\" }"), Ok(()));
    assert_eq!(ctx.last().content, "ok");
}

#[test]
fn response_escapes_are_decoded() {
    let mut ctx = ConversationContext::new(String::from("sys"));
    assert_eq!(
        ctx.apply_response("{\"output\":\"a\\nb\\\"c\\\\d\\u0041e\",\"time\":2}"),
        Ok(())
    );
    assert_eq!(ctx.last().content, "a\nb\"c\\dAe");
    assert_eq!(ctx.apply_response("{\"output\":\"a\\/b\\t\\u000af\",\"time\":-1.5e2}"), Ok(()));
    assert_eq!(ctx.last().content, "a/b\t\nf");
}

#[test]
fn malformed_response_leaves_context_byte_identical() {
    let mut ctx = ConversationContext::new(String::from("sys"));
    ctx.append_user(String::from("q"));
    let before = snapshot(&ctx);
    for body in [
        "",
        "not json",
        "{\"output\": \"hi\"}",
        "{\"output\": \"hi\", \"time\": 1.5} trailing",
        "{\"output\": 5, \"time\": 1.5}",
        "{\"output\": \"hi\", \"time\": \"late\"}",
        "{\"wrong\": \"hi\", \"time\": 1.5}",
        "{\"output\": \"hi\", \"time\": 1.5",
        "[{\"output\": \"hi\", \"time\": 1.5}]",
        "{\"output\": \"unterminated, \"time\": 1.5}",
        "{\"output\": \"bad escape \\x\", \"time\": 1.5}",
        "{\"output\": \"bad hex \\u00zz\", \"time\": 1.5}",
        "{\"output\": \"high escape \\u0100\", \"time\": 1.5}",
    ] {
        let r = ctx.apply_response(body);
        assert_eq!(r, Err(NetworkError::MalformedResponse), "body accepted: {}", body);
        assert_eq!(snapshot(&ctx), before, "context changed on failure for: {}", body);
    }
}
