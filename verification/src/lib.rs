//! Verified core of an interactive chat client whose side-effecting commands
//! are invoked by semantic similarity of free text to command descriptions.
//!
//! The library owns every decision the client makes: classifying input lines,
//! keeping the ordered conversation log with its system-prompt invariant,
//! building the texts and numeric ids that seed the similarity index,
//! resolving an index payload back to a registered command, executing command
//! handlers against the conversation, encoding the backend request body and
//! parsing its response. The unverified binary around it only moves bytes:
//! terminal input, the HTTP round trip, the embedding model and the vector
//! database.

pub mod context;
pub mod handlers;
pub mod init;
pub mod input;
pub mod json;
pub mod message;
pub mod registry;
pub mod router;
pub mod session;

pub use context::ContextError;
pub use context::ConversationContext;
pub use context::NetworkError;
pub use init::built_in_registry;
pub use init::collection_name;
pub use init::create_collection_outcome;
pub use init::CreateOutcome;
pub use init::StartupError;
pub use init::EMBEDDING_DIM;
pub use handlers::needs_input;
pub use handlers::run_handler;
pub use handlers::HandlerError;
pub use handlers::HandlerKind;
pub use handlers::HandlerOutcome;
pub use handlers::InputError;
pub use input::classify;
pub use input::InputType;
pub use json::parse_response;
pub use registry::Command;
pub use registry::CommandRegistry;
pub use router::description_text;
pub use router::indexing_plan;
pub use router::query_text;
pub use router::resolve;
pub use router::route_query;
pub use router::IndexEntry;
pub use router::RouterError;
pub use session::session_step;
pub use session::SessionAction;
pub use session::SessionState;
pub use message::Message;
pub use message::Role;
