use qmulo_chat::needs_input;
use qmulo_chat::run_handler;
use qmulo_chat::ContextError;
use qmulo_chat::ConversationContext;
use qmulo_chat::HandlerError;
use qmulo_chat::HandlerKind;
use qmulo_chat::HandlerOutcome;
use qmulo_chat::InputError;
use qmulo_chat::InputType;
use qmulo_chat::Role;

#[test]
fn only_the_soliciting_handlers_need_input() {
    assert!(!needs_input(HandlerKind::Retry));
    assert!(needs_input(HandlerKind::Hint));
    assert!(needs_input(HandlerKind::SetSystem));
}

#[test]
fn retry_pops_the_newest_and_asks_for_a_resend() {
    let mut ctx = ConversationContext::new(String::from("sys"));
    ctx.append_user(String::from("q"));
    ctx.append_assistant(String::from("bad answer"));
    let r = run_handler(HandlerKind::Retry, &mut ctx, None);
    assert_eq!(r, Ok(HandlerOutcome::SendRequired));
    assert_eq!(ctx.len(), 2);
    assert_eq!(ctx.last().content, "q");
}

#[test]
fn retry_on_a_fresh_context_fails_unchanged() {
    let mut ctx = ConversationContext::new(String::from("sys"));
    let r = run_handler(HandlerKind::Retry, &mut ctx, None);
    assert_eq!(r, Err(HandlerError::Context(ContextError::SystemPromptProtected)));
    assert_eq!(ctx.len(), 1);
    assert_eq!(ctx.message_at(0).content, "sys");
}

#[test]
fn hint_appends_a_system_message() {
    let mut ctx = ConversationContext::new(String::from("sys"));
    ctx.append_user(String::from("q"));
    let r = run_handler(
        HandlerKind::Hint,
        &mut ctx,
        Some(InputType::Prompt(String::from("answer in French"))),
    );
    assert_eq!(r, Ok(HandlerOutcome::Done));
    assert_eq!(ctx.len(), 3);
    assert_eq!(ctx.last().role, Role::System);
    assert_eq!(ctx.last().content, "answer in French");
}

#[test]
fn hint_refuses_nested_command_input() {
    let mut ctx = ConversationContext::new(String::from("sys"));
    let r = run_handler(
        HandlerKind::Hint,
        &mut ctx,
        Some(InputType::Command(String::from("retry"))),
    );
    assert_eq!(r, Err(HandlerError::Input(InputError::NestedCommand)));
    assert_eq!(ctx.len(), 1);
}

#[test]
fn set_system_overwrites_the_prompt() {
    let mut ctx = ConversationContext::new(String::from("old"));
    ctx.append_user(String::from("q"));
    let r = run_handler(
        HandlerKind::SetSystem,
        &mut ctx,
        Some(InputType::Prompt(String::from("brand new prompt"))),
    );
    assert_eq!(r, Ok(HandlerOutcome::Done));
    assert_eq!(ctx.len(), 2);
    assert_eq!(ctx.message_at(0).role, Role::System);
    assert_eq!(ctx.message_at(0).content, "brand new prompt");
    assert_eq!(ctx.message_at(1).content, "q");
}

#[test]
fn set_system_refuses_nested_command_input() {
    let mut ctx = ConversationContext::new(String::from("old"));
    let r = run_handler(
        HandlerKind::SetSystem,
        &mut ctx,
        Some(InputType::Command(String::from("hint"))),
    );
    assert_eq!(r, Err(HandlerError::Input(InputError::NestedCommand)));
    assert_eq!(ctx.message_at(0).content, "old");
}
