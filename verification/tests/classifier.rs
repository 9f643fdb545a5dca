use qmulo_chat::classify;
use qmulo_chat::session_step;
use qmulo_chat::InputType;
use qmulo_chat::SessionAction;
use qmulo_chat::SessionState;

#[test]
fn sentinel_line_is_command_with_sentinel_stripped() {
    match classify(String::from("/hint")) {
        InputType::Command(c) => assert_eq!(c, "hint"),
        InputType::Prompt(_) => panic!("expected a command"),
    }
}

#[test]
fn plain_line_is_prompt() {
    match classify(String::from("hello world")) {
        InputType::Prompt(p) => assert_eq!(p, "hello world"),
        InputType::Command(_) => panic!("expected a prompt"),
    }
}

#[test]
fn empty_line_is_prompt_never_command() {
    match classify(String::from("")) {
        InputType::Prompt(p) => assert_eq!(p, ""),
        InputType::Command(_) => panic!("the empty line must never classify as a command"),
    }
}

#[test]
fn lone_sentinel_is_empty_command() {
    match classify(String::from("/")) {
        InputType::Command(c) => assert_eq!(c, ""),
        InputType::Prompt(_) => panic!("expected a command"),
    }
}

#[test]
fn into_string_returns_the_carried_text() {
    assert_eq!(InputType::Prompt(String::from("a b")).into_string(), "a b");
    assert_eq!(InputType::Command(String::from("retry")).into_string(), "retry");
}

#[test]
fn first_input_seeds_system_prompt_verbatim_even_with_sentinel() {
    let (state, action) = session_step(SessionState::AwaitingSystemPrompt, String::from("/retry"));
    assert_eq!(state, SessionState::Ready);
    match action {
        SessionAction::SeedSystemPrompt(s) => assert_eq!(s, "/retry"),
        _ => panic!("the first input must seed the system prompt, never route"),
    }
}

#[test]
fn ready_prompt_is_sent() {
    let (state, action) = session_step(SessionState::Ready, String::from("hello"));
    assert_eq!(state, SessionState::Ready);
    match action {
        SessionAction::SendPrompt(s) => assert_eq!(s, "hello"),
        _ => panic!("a plain line in Ready must be sent"),
    }
}

#[test]
fn ready_sentinel_line_is_routed() {
    let (state, action) = session_step(SessionState::Ready, String::from("/try again"));
    assert_eq!(state, SessionState::Ready);
    match action {
        SessionAction::RouteCommand(s) => assert_eq!(s, "try again"),
        _ => panic!("a sentinel line in Ready must be routed"),
    }
}
