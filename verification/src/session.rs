use vstd::prelude::*;
use crate::input::classify;
use crate::input::sentinel;
use crate::input::InputType;

verus! {

/// The two states of the session loop. The loop has no terminal state; it
/// runs until the process is ended from outside.
#[derive(Clone, Copy, Debug, PartialEq, Eq, Structural)]
pub enum SessionState {
    /// Nothing captured yet: the next line seeds the system prompt.
    AwaitingSystemPrompt,
    /// The conversation is seeded; lines are classified and dispatched.
    Ready,
}

/// What the session loop must do with one captured line.
#[derive(Clone, Debug)]
pub enum SessionAction {
    /// Seed the conversation with this text as the system prompt.
    SeedSystemPrompt(String),
    /// Send this text as a user turn to the backend.
    SendPrompt(String),
    /// Route this command text against the registry.
    RouteCommand(String),
}

/// One step of the session state machine. The very first captured line
/// becomes the system prompt seed verbatim — even when it begins with the
/// command sentinel, it is never routed. Every later line is classified:
/// plain prompts are sent, command text is routed. Failures of either are
/// per-turn affairs of the caller; the state stays `Ready` regardless.
pub fn session_step(state: SessionState, line: String) -> (r: (SessionState, SessionAction))
    ensures
        r.0 == SessionState::Ready,
        state == SessionState::AwaitingSystemPrompt ==> r.1 == (SessionAction::SeedSystemPrompt(
            line,
        )),
        state == SessionState::Ready ==> {
            &&& (line@.len() >= 1 && line@[0] == sentinel()) ==> {
                &&& r.1 matches SessionAction::RouteCommand(c)
                &&& c@ == line@.subrange(1, line@.len() as int)
            }
            &&& !(line@.len() >= 1 && line@[0] == sentinel()) ==> r.1 == (SessionAction::SendPrompt(
                line,
            ))
        },
{
    match state {
        SessionState::AwaitingSystemPrompt => (
            SessionState::Ready,
            SessionAction::SeedSystemPrompt(line),
        ),
        SessionState::Ready => match classify(line) {
            InputType::Prompt(p) => (SessionState::Ready, SessionAction::SendPrompt(p)),
            InputType::Command(c) => (SessionState::Ready, SessionAction::RouteCommand(c)),
        },
    }
}

} // verus!
