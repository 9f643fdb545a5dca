use vstd::prelude::*;

verus! {

/// The sentinel that marks a captured line as a command invocation.
pub open spec fn sentinel() -> char {
    '/'
}

/// A captured line of input, already told apart: either plain conversation
/// text, or command text with the leading sentinel stripped.
#[derive(Clone, Debug)]
pub enum InputType {
    Prompt(String),
    Command(String),
}

impl InputType {
    /// The carried text, whichever variant holds it.
    pub fn into_string(self) -> (r: String)
        ensures
            self matches InputType::Prompt(p) ==> r == p,
            self matches InputType::Command(c) ==> r == c,
    {
        match self {
            InputType::Prompt(prompt) => prompt,
            InputType::Command(cmd) => cmd,
        }
    }
}

/// Classify one captured line: a line beginning with the sentinel is command
/// text (sentinel stripped), every other line — the empty line included — is
/// a plain prompt. Pure; no side effects.
pub fn classify(line: String) -> (r: InputType)
    ensures
        (line@.len() >= 1 && line@[0] == sentinel()) ==> {
            &&& r matches InputType::Command(c)
            &&& c@ == line@.subrange(1, line@.len() as int)
        },
        !(line@.len() >= 1 && line@[0] == sentinel()) ==> r == (InputType::Prompt(
            line,
        )),
{
    let n = line.as_str().unicode_len();
    if n >= 1 && line.as_str().get_char(0) == '/' {
        let rest = line.as_str().substring_char(1, n);
        InputType::Command(String::from_str(rest))
    } else {
        InputType::Prompt(line)
    }
}

} // verus!
