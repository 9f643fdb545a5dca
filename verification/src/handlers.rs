use vstd::prelude::*;
use crate::context::ContextError;
use crate::context::ConversationContext;
use crate::input::InputType;
use crate::message::Message;
use crate::message::Role;

verus! {

/// Error raised when a handler that solicited one further plain line was
/// handed command text instead: nested command input is not permitted.
#[derive(Clone, Copy, Debug, PartialEq, Eq, Structural)]
pub enum InputError {
    NestedCommand,
}

/// Why a handler failed.
#[derive(Clone, Copy, Debug, PartialEq, Eq, Structural)]
pub enum HandlerError {
    Input(InputError),
    Context(ContextError),
}

/// The closed set of built-in command capabilities. Each value names what
/// its command does to the conversation when executed.
#[derive(Clone, Copy, Debug, PartialEq, Eq, Structural)]
pub enum HandlerKind {
    /// Drop the newest message and ask for the reply to be regenerated.
    Retry,
    /// Append one further system instruction solicited from the user.
    Hint,
    /// Overwrite the system prompt with a line solicited from the user.
    SetSystem,
}

/// What the caller owes the conversation after a handler succeeded.
#[derive(Clone, Copy, Debug, PartialEq, Eq, Structural)]
pub enum HandlerOutcome {
    /// The log changed in a way that calls for a fresh backend round trip.
    SendRequired,
    /// The handler is complete; nothing further to do.
    Done,
}

/// Whether this handler solicits one further captured line before it runs.
pub open spec fn spec_needs_input(k: HandlerKind) -> bool {
    match k {
        HandlerKind::Retry => false,
        HandlerKind::Hint => true,
        HandlerKind::SetSystem => true,
    }
}

/// The executable counterpart of [`spec_needs_input`].
pub fn needs_input(k: HandlerKind) -> (b: bool)
    ensures
        b == spec_needs_input(k),
{
    match k {
        HandlerKind::Retry => false,
        HandlerKind::Hint => true,
        HandlerKind::SetSystem => true,
    }
}

/// Execute a handler against the conversation, with the one further
/// classified line it solicited, if it solicits one.
///
/// The handler holds exclusive access to the conversation only for the span
/// of this call. On any failure the conversation is left unchanged.
pub fn run_handler(
    k: HandlerKind,
    ctx: &mut ConversationContext,
    extra: Option<InputType>,
) -> (r: Result<HandlerOutcome, HandlerError>)
    requires
        old(ctx).wf(),
        spec_needs_input(k) ==> extra is Some,
    ensures
        final(ctx).wf(),
        r is Err ==> final(ctx).log() == old(ctx).log(),
        k == HandlerKind::Retry ==> {
            &&& old(ctx).log().len() == 1 ==> r == Result::<HandlerOutcome, HandlerError>::Err(
                HandlerError::Context(ContextError::SystemPromptProtected),
            )
            &&& old(ctx).log().len() > 1 ==> {
                &&& r == Result::<HandlerOutcome, HandlerError>::Ok(HandlerOutcome::SendRequired)
                &&& final(ctx).log() == old(ctx).log().drop_last()
            }
        },
        k == HandlerKind::Hint ==> {
            &&& extra matches Some(InputType::Prompt(p)) ==> {
                &&& r == Result::<HandlerOutcome, HandlerError>::Ok(HandlerOutcome::Done)
                &&& final(ctx).log() == old(ctx).log().push(
                    (Message { role: Role::System, content: p }),
                )
            }
            &&& (extra matches Some(InputType::Command(c))) ==> r == Result::<
                HandlerOutcome,
                HandlerError,
            >::Err(HandlerError::Input(InputError::NestedCommand))
        },
        k == HandlerKind::SetSystem ==> {
            &&& extra matches Some(InputType::Prompt(p)) ==> {
                &&& r == Result::<HandlerOutcome, HandlerError>::Ok(HandlerOutcome::Done)
                &&& final(ctx).log() == old(ctx).log().update(
                    0,
                    (Message { role: Role::System, content: p }),
                )
            }
            &&& (extra matches Some(InputType::Command(c))) ==> r == Result::<
                HandlerOutcome,
                HandlerError,
            >::Err(HandlerError::Input(InputError::NestedCommand))
        },
{
    match k {
        HandlerKind::Retry => match ctx.remove_last() {
            Ok(()) => Ok(HandlerOutcome::SendRequired),
            Err(e) => Err(HandlerError::Context(e)),
        },
        HandlerKind::Hint => match extra {
            Some(InputType::Prompt(p)) => {
                ctx.append_system(p);
                Ok(HandlerOutcome::Done)
            },
            Some(InputType::Command(_)) => Err(HandlerError::Input(InputError::NestedCommand)),
            None => unreached(),
        },
        HandlerKind::SetSystem => match extra {
            Some(InputType::Prompt(p)) => {
                ctx.set_system(p);
                Ok(HandlerOutcome::Done)
            },
            Some(InputType::Command(_)) => Err(HandlerError::Input(InputError::NestedCommand)),
            None => unreached(),
        },
    }
}

} // verus!
