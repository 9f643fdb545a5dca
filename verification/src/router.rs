use vstd::prelude::*;
use crate::registry::Command;
use crate::registry::CommandRegistry;

verus! {

/// Why routing failed. Both cases are per-turn and recoverable: the session
/// reports them and keeps accepting input.
#[derive(Clone, Copy, Debug, PartialEq, Eq, Structural)]
pub enum RouterError {
    /// No command is registered, so no query could return a valid match.
    EmptyRegistry,
    /// The similarity index answered with an id the registry does not hold
    /// (index/registry desynchronization), or with no usable payload at all.
    CommandNotFound,
}

/// The indexing-time framing of a command: `"{id}: {description}"`. This is
/// the text whose embedding is stored for the command.
pub open spec fn description_framed(c: Command) -> Seq<char> {
    c.id@ + ": "@ + c.description@
}

/// The query-time framing of free text: `"query: {raw}"`. Deliberately
/// asymmetric to [`description_framed`]; the retrieval model is trained on
/// distinct document and query framings, and collapsing them degrades
/// matching.
pub open spec fn query_framed(raw: Seq<char>) -> Seq<char> {
    "query: "@ + raw
}

/// Build the indexing-time text for one command.
pub fn description_text(c: &Command) -> (r: String)
    ensures
        r@ == description_framed(*c),
{
    let mut s = c.id.clone();
    s.append(": ");
    s.append(c.description.as_str());
    s
}

/// Build the query-time text for one captured command line.
pub fn query_text(raw: &String) -> (r: String)
    ensures
        r@ == query_framed(raw@),
{
    let mut s = String::from_str("query: ");
    s.append(raw.as_str());
    s
}

/// One row of the initialization batch: everything the similarity index
/// stores for one command. The numeric id is the command's position in
/// registry iteration order plus one (zero is a reserved id); the payload
/// carries the command's id and description, and the router relies on the
/// payload id alone, never on the numeric id.
pub struct IndexEntry {
    pub point_id: u64,
    pub text: String,
    pub payload_id: String,
    pub payload_description: String,
}

/// What it means for a batch to be the indexing plan of a registry: one row
/// per command in iteration order, numeric ids assigned by position, texts
/// framed for indexing, payloads carrying the command metadata.
pub open spec fn plan_matches(reg: &CommandRegistry, plan: Seq<IndexEntry>) -> bool {
    &&& plan.len() == reg.entries().len()
    &&& forall|i: int|
        0 <= i < plan.len() ==> {
            &&& (#[trigger] plan[i]).point_id == i + 1
            &&& plan[i].text@ == description_framed(reg.entries()[i])
            &&& plan[i].payload_id@ == reg.entries()[i].id@
            &&& plan[i].payload_description@ == reg.entries()[i].description@
        }
}

/// The one-time initialization batch for the similarity index. The
/// correspondence embedding[i] — command[i] is established here once, from a
/// single pass over the registry, and never re-derived.
pub fn indexing_plan(reg: &CommandRegistry) -> (plan: Vec<IndexEntry>)
    requires
        reg.entries().len() < u64::MAX,
    ensures
        plan_matches(reg, plan@),
{
    let n = reg.len();
    let mut plan: Vec<IndexEntry> = Vec::new();
    let mut i: usize = 0;
    while i < n
        invariant
            n == reg.entries().len(),
            n < u64::MAX,
            i <= n,
            plan@.len() == i,
            forall|j: int|
                0 <= j < i ==> {
                    &&& (#[trigger] plan@[j]).point_id == j + 1
                    &&& plan@[j].text@ == description_framed(reg.entries()[j])
                    &&& plan@[j].payload_id@ == reg.entries()[j].id@
                    &&& plan@[j].payload_description@ == reg.entries()[j].description@
                },
        decreases n - i,
    {
        let c = reg.entry_at(i);
        let entry = IndexEntry {
            point_id: (i as u64) + 1,
            text: description_text(c),
            payload_id: c.id.clone(),
            payload_description: c.description.clone(),
        };
        plan.push(entry);
        i = i + 1;
    }
    plan
}

/// The indexing plan is a function of the registry alone: any two batches
/// that are plans of the same registry are equal row for row. Running
/// initialization twice therefore re-upserts the same vectors under the same
/// numeric ids, and the second run is as acceptable to the index as the
/// first.
pub proof fn lemma_plan_deterministic(
    reg: &CommandRegistry,
    p1: Seq<IndexEntry>,
    p2: Seq<IndexEntry>,
)
    requires
        plan_matches(reg, p1),
        plan_matches(reg, p2),
    ensures
        forall|i: int|
            0 <= i < p1.len() ==> {
                &&& (#[trigger] p1[i]).point_id == p2[i].point_id
                &&& p1[i].text@ == p2[i].text@
                &&& p1[i].payload_id@ == p2[i].payload_id@
                &&& p1[i].payload_description@ == p2[i].payload_description@
            },
        p1.len() == p2.len(),
{
}

/// The first routing step: refuse an empty registry outright — an index with
/// zero valid matches is never queried — and otherwise hand back the framed
/// query text to embed.
pub fn route_query(reg: &CommandRegistry, raw: &String) -> (r: Result<String, RouterError>)
    ensures
        reg.entries().len() == 0 ==> r == Result::<String, RouterError>::Err(
            RouterError::EmptyRegistry,
        ),
        reg.entries().len() > 0 ==> {
            &&& r matches Ok(q)
            &&& q@ == query_framed(raw@)
        },
{
    if reg.len() == 0 {
        Err(RouterError::EmptyRegistry)
    } else {
        Ok(query_text(raw))
    }
}

/// The last routing step: take the command id the nearest neighbor's payload
/// carried — or `None` where the index answered without a usable payload —
/// and resolve it in the registry. An id the registry does not hold is a
/// clean, distinct failure, never a fault.
pub fn resolve<'a>(reg: &'a CommandRegistry, found: Option<&String>) -> (r: Result<
    &'a Command,
    RouterError,
>)
    requires
        reg.wf(),
    ensures
        found is None ==> r == Result::<&Command, RouterError>::Err(RouterError::CommandNotFound),
        found matches Some(id) ==> {
            &&& !reg.contains_id(id@) ==> r == Result::<&Command, RouterError>::Err(
                RouterError::CommandNotFound,
            )
            &&& reg.contains_id(id@) ==> {
                &&& r matches Ok(c)
                &&& *c == reg.entries()[reg.index_of(id@)]
                &&& c.id@ == id@
            }
        },
{
    match found {
        Some(id) => match reg.get(id) {
            Some(c) => Ok(c),
            None => Err(RouterError::CommandNotFound),
        },
        None => Err(RouterError::CommandNotFound),
    }
}

/// Self-resolution: the payload stored for a registered command names an id
/// the registry holds, and looking that id up yields exactly that command —
/// whatever the registry's iteration order. This is the registry/index
/// consistency half of self-match; how close the embedding model places a
/// description to itself is the index's affair.
pub proof fn lemma_payload_resolves_to_own_command(reg: &CommandRegistry, i: int)
    requires
        reg.wf(),
        0 <= i < reg.entries().len(),
    ensures
        reg.contains_id(reg.entries()[i].id@),
        reg.index_of(reg.entries()[i].id@) == i,
{
    let id = reg.entries()[i].id@;
    assert(reg.contains_id(id));
    let k = reg.index_of(id);
    assert(k < i ==> reg.entries()[k].id@ != reg.entries()[i].id@);
    assert(i < k ==> reg.entries()[i].id@ != reg.entries()[k].id@);
}

/// Self-match, seen from the similarity index: every row of the indexing
/// plan carries in its payload the id of the command it was built from, and
/// that id resolves in the registry to exactly that command. So whichever
/// row a nearest-neighbor query returns, the router executes the command
/// whose description was embedded in that row — index and registry cannot
/// drift apart through the plan.
pub proof fn lemma_plan_payload_resolves(reg: &CommandRegistry, plan: Seq<IndexEntry>, i: int)
    requires
        reg.wf(),
        plan_matches(reg, plan),
        0 <= i < plan.len(),
    ensures
        reg.contains_id(plan[i].payload_id@),
        reg.index_of(plan[i].payload_id@) == i,
        reg.entries()[reg.index_of(plan[i].payload_id@)].description@ == plan[i].payload_description@,
{
    lemma_payload_resolves_to_own_command(reg, i);
}

} // verus!
