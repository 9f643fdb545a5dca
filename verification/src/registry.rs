use vstd::prelude::*;
use crate::handlers::HandlerKind;

verus! {

/// A registered command: a unique textual id, the natural-language
/// description whose embedding makes the command reachable by free text,
/// and the capability that runs when the command is invoked.
pub struct Command {
    pub id: String,
    pub description: String,
    pub handler: HandlerKind,
}

/// The command registry: an insertion-ordered mapping from unique ids to
/// commands. Built once before the session accepts input and read-only
/// thereafter; commands are never removed or redefined.
pub struct CommandRegistry {
    commands: Vec<Command>,
}

impl CommandRegistry {
    /// The registered commands in iteration order.
    pub closed spec fn entries(&self) -> Seq<Command> {
        self.commands@
    }

    /// Invariant: command ids are pairwise distinct.
    pub open spec fn wf(&self) -> bool {
        forall|i: int, j: int|
            #![trigger self.entries()[i].id, self.entries()[j].id]
            0 <= i < j < self.entries().len() ==> self.entries()[i].id@ != self.entries()[j].id@
    }

    /// Whether some command carries the id `id`.
    pub open spec fn contains_id(&self, id: Seq<char>) -> bool {
        exists|i: int| 0 <= i < self.entries().len() && self.entries()[i].id@ == id
    }

    /// The position of the command whose id is `id`; meaningful only when
    /// `contains_id(id)` holds.
    pub open spec fn index_of(&self, id: Seq<char>) -> int {
        choose|i: int| 0 <= i < self.entries().len() && self.entries()[i].id@ == id
    }

    /// An empty registry.
    pub fn new() -> (r: Self)
        ensures
            r.wf(),
            r.entries().len() == 0,
    {
        CommandRegistry { commands: Vec::new() }
    }

    /// How many commands are registered.
    pub fn len(&self) -> (n: usize)
        ensures
            n == self.entries().len(),
    {
        self.commands.len()
    }

    /// The command at position `i` of the iteration order.
    pub fn entry_at(&self, i: usize) -> (c: &Command)
        requires
            i < self.entries().len(),
        ensures
            *c == self.entries()[i as int],
    {
        &self.commands[i]
    }

    /// Register one more command. Ids are unique and never redefined, so the
    /// id must be new.
    pub fn register(&mut self, cmd: Command)
        requires
            old(self).wf(),
            !old(self).contains_id(cmd.id@),
        ensures
            final(self).wf(),
            final(self).entries() == old(self).entries().push(cmd),
    {
        self.commands.push(cmd);
    }

    /// Look an id up: the registered command under exactly that id, or
    /// `None` when no command carries it.
    pub fn get(&self, id: &String) -> (r: Option<&Command>)
        requires
            self.wf(),
        ensures
            self.contains_id(id@) ==> {
                &&& r matches Some(c)
                &&& *c == self.entries()[self.index_of(id@)]
                &&& c.id@ == id@
            },
            !self.contains_id(id@) ==> r is None,
    {
        let n = self.commands.len();
        let mut i: usize = 0;
        while i < n
            invariant
                self.wf(),
                n == self.entries().len(),
                i <= n,
                forall|j: int| 0 <= j < i ==> self.entries()[j].id@ != id@,
            decreases n - i,
        {
            if self.commands[i].id == *id {
                proof {
                    assert(self.entries()[i as int].id@ == id@);
                    let k = self.index_of(id@);
                    assert(0 <= k < self.entries().len() && self.entries()[k].id@ == id@);
                    assert(k < i as int ==> self.entries()[k].id@ != self.entries()[i as int].id@);
                    assert((i as int) < k ==> self.entries()[i as int].id@ != self.entries()[k].id@);
                    assert(k == i as int);
                }
                return Some(&self.commands[i]);
            }
            i = i + 1;
        }
        None
    }
}

} // verus!
