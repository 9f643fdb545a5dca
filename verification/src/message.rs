use vstd::prelude::*;

verus! {

/// The speaker of a conversation entry. The backend protocol knows exactly
/// these three roles, serialized as the lowercase tokens `user`, `system`
/// and `assistant`.
#[derive(Clone, Copy, Debug, PartialEq, Eq, Structural)]
pub enum Role {
    User,
    System,
    Assistant,
}

/// The lowercase token under which a role travels in the backend protocol.
pub open spec fn role_token(r: Role) -> Seq<char> {
    match r {
        Role::User => "user"@,
        Role::System => "system"@,
        Role::Assistant => "assistant"@,
    }
}

/// One entry of the conversation log: a role and free text. Immutable once
/// created.
#[derive(Clone, Debug)]
pub struct Message {
    pub role: Role,
    pub content: String,
}

impl Message {
    /// A message spoken by the human user.
    pub fn user(content: String) -> (m: Message)
        ensures
            m.role == Role::User,
            m.content == content,
    {
        Message { role: Role::User, content }
    }

    /// A message carrying an instruction for the assistant.
    pub fn system(content: String) -> (m: Message)
        ensures
            m.role == Role::System,
            m.content == content,
    {
        Message { role: Role::System, content }
    }

    /// A message produced by the backend on behalf of the assistant.
    pub fn assistant(content: String) -> (m: Message)
        ensures
            m.role == Role::Assistant,
            m.content == content,
    {
        Message { role: Role::Assistant, content }
    }
}

/// The executable counterpart of [`role_token`].
pub fn role_token_str(r: Role) -> (s: &'static str)
    ensures
        s@ == role_token(r),
{
    match r {
        Role::User => "user",
        Role::System => "system",
        Role::Assistant => "assistant",
    }
}

} // verus!
