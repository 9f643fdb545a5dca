use vstd::prelude::*;
use crate::handlers::HandlerKind;
use crate::registry::Command;
use crate::registry::CommandRegistry;

verus! {

/// The fixed dimension of the embedding vectors the collection is created
/// with.
pub const EMBEDDING_DIM: u64 = 1024;

/// Fatal startup failure: the session never starts over a partially indexed
/// registry.
#[derive(Clone, Copy, Debug, PartialEq, Eq, Structural)]
pub enum StartupError {
    /// The similarity collection could not be created and did not already
    /// exist.
    CollectionCreation,
}

/// How the similarity index answered the collection-creation request,
/// reduced to the three cases the startup decision distinguishes.
#[derive(Clone, Copy, Debug, PartialEq, Eq, Structural)]
pub enum CreateOutcome {
    /// The collection was newly created.
    Created,
    /// The collection was already there from an earlier run.
    AlreadyExists,
    /// Any other creation failure.
    Failed,
}

/// The name of the similarity-index collection that holds command vectors.
pub fn collection_name() -> (s: &'static str)
    ensures
        s@ == "commands"@,
{
    "commands"
}

/// The startup decision on the creation outcome: a collection that already
/// exists is as good as one just created, so initialization can run against
/// an already-populated collection without a fatal error; any other failure
/// is fatal.
pub fn create_collection_outcome(o: CreateOutcome) -> (r: Result<(), StartupError>)
    ensures
        r is Ok <==> (o == CreateOutcome::Created || o == CreateOutcome::AlreadyExists),
        r is Err ==> r == Result::<(), StartupError>::Err(StartupError::CollectionCreation),
{
    match o {
        CreateOutcome::Created => Ok(()),
        CreateOutcome::AlreadyExists => Ok(()),
        CreateOutcome::Failed => Err(StartupError::CollectionCreation),
    }
}

/// The registry of built-in commands, in its iteration order: *hint*,
/// *retry*, *system* (ids ascend, as in an ordered map keyed by id).
pub fn built_in_registry() -> (reg: CommandRegistry)
    ensures
        reg.wf(),
        reg.entries().len() == 3,
        reg.entries()[0].id@ == "hint"@,
        reg.entries()[0].handler == HandlerKind::Hint,
        reg.entries()[0].description@ ==
            "add a message in the system role, further clarifying how the assistant should behave, or providing a suggestion for future responses."@,
        reg.entries()[1].id@ == "retry"@,
        reg.entries()[1].handler == HandlerKind::Retry,
        reg.entries()[1].description@ ==
            "delete the last assistant response and regenerate it again, or retry the last response"@,
        reg.entries()[2].id@ == "system"@,
        reg.entries()[2].handler == HandlerKind::SetSystem,
        reg.entries()[2].description@ == "Overwrite the system prompt with a new one."@,
{
    proof {
        reveal_strlit("hint");
        reveal_strlit("retry");
        reveal_strlit("system");
    }
    let mut reg = CommandRegistry::new();
    let hint = Command {
        id: String::from_str("hint"),
        description: String::from_str(
            "add a message in the system role, further clarifying how the assistant should behave, or providing a suggestion for future responses.",
        ),
        handler: HandlerKind::Hint,
    };
    let retry = Command {
        id: String::from_str("retry"),
        description: String::from_str(
            "delete the last assistant response and regenerate it again, or retry the last response",
        ),
        handler: HandlerKind::Retry,
    };
    let system = Command {
        id: String::from_str("system"),
        description: String::from_str("Overwrite the system prompt with a new one."),
        handler: HandlerKind::SetSystem,
    };
    proof {
        assert("hint"@.len() == 4 && "retry"@.len() == 5 && "system"@.len() == 6);
    }
    reg.register(hint);
    proof {
        assert(reg.entries().len() == 1 && reg.entries()[0].id@ == "hint"@);
        assert(!reg.contains_id("retry"@));
    }
    reg.register(retry);
    proof {
        assert(reg.entries().len() == 2 && reg.entries()[1].id@ == "retry"@);
        assert(!reg.contains_id("system"@));
    }
    reg.register(system);
    reg
}

} // verus!
