//! Starting a reconnect job: minting its identifier and registering it
//! before any of its work can begin.

use crate::job::{started, Action, Job};
use crate::registry::{Outcome, Registry, poll_outcome};
use vstd::prelude::*;

verus! {

/// Whether `c` may stand in a job identifier: a lower-case hexadecimal digit
/// or a hyphen.
pub open spec fn identifier_char(c: char) -> bool {
    ('0' <= c && c <= '9') || ('a' <= c && c <= 'f') || c == '-'
}

/// The shape of a minted job identifier: 36 characters, each a lower-case
/// hexadecimal digit or a hyphen, so that it can stand in a URL path as it is.
pub open spec fn identifier_shaped(id: Seq<char>) -> bool {
    &&& id.len() == 36
    &&& forall|i: int| 0 <= i < id.len() ==> identifier_char(#[trigger] id[i])
}

/// A job that was started: its identifier, the job, and its first action.
#[derive(Debug)]
pub struct Started {
    pub id: String,
    pub job: Job,
    pub action: Action,
}

/// Calls `uuid::Uuid::new_v4` and formats the result with its `Display`.
///
/// Trusted: the text is the hyphenated lower-case form, 32 hexadecimal
/// digits in five groups. Which digits is left open: they are random.
#[verifier::external_body]
fn fresh_identifier() -> (id: String)
    ensures
        identifier_shaped(id@),
{
    uuid::Uuid::new_v4().to_string()
}

/// Starts a reconnect job under the identifier `id`: registers `id` with an
/// empty slot and returns the job with its first action. Nothing of the job
/// has run when the identifier is registered.
pub fn start_with(registry: &mut Registry, id: String, password: String) -> (r: Started)
    ensures
        r.id@ == id@,
        (r.job@, r.action@) == started(password@),
        final(registry)@ == old(registry)@.insert(id@, None),
        poll_outcome(final(registry)@, id@) == Outcome::Pending,
{
    let kept = id.clone();
    registry.register(id);
    let (job, action) = Job::start(password);
    Started { id: kept, job, action }
}

/// Starts a reconnect job under a freshly minted identifier.
///
/// Whatever identifier was minted, it is registered with an empty slot when
/// this returns, so a poll that follows at once finds the job pending.
pub fn start_reconnect(registry: &mut Registry, password: String) -> (r: Started)
    ensures
        identifier_shaped(r.id@),
        (r.job@, r.action@) == started(password@),
        final(registry)@ == old(registry)@.insert(r.id@, None),
        poll_outcome(final(registry)@, r.id@) == Outcome::Pending,
{
    let id = fresh_identifier();
    start_with(registry, id, password)
}

} // verus!
