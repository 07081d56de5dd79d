//! The job registry: a mapping from job identifier to a one-shot result slot.
//!
//! A slot is created empty, filled at most once and read at most once; the
//! read removes it, so an identifier resolves for exactly one delivery.

use vstd::prelude::*;

verus! {

/// What the registry holds, as a mathematical map: each registered identifier
/// with its slot, `None` while the job is running and `Some(message)` once the
/// terminal message has been delivered and not yet read.
pub type Slots = Map<Seq<char>, Option<Seq<char>>>;

/// Result of polling a job identifier.
#[derive(Debug, PartialEq, Eq)]
pub enum Echo {
    /// The identifier is not registered (never was, or its result was read).
    NotFound,
    /// The job is registered and has not delivered yet: the caller waits.
    Pending,
    /// The job's terminal message. The identifier is no longer registered.
    Message(String),
}

/// Mathematical value of an [`Echo`].
pub ghost enum Outcome {
    NotFound,
    Pending,
    Message(Seq<char>),
}

impl View for Echo {
    type V = Outcome;

    open spec fn view(&self) -> Outcome {
        match self {
            Echo::NotFound => Outcome::NotFound,
            Echo::Pending => Outcome::Pending,
            Echo::Message(m) => Outcome::Message(m@),
        }
    }
}

/// What a poll of `id` answers on the slots `slots`.
pub open spec fn poll_outcome(slots: Slots, id: Seq<char>) -> Outcome {
    if !slots.contains_key(id) {
        Outcome::NotFound
    } else {
        match slots[id] {
            None => Outcome::Pending,
            Some(m) => Outcome::Message(m),
        }
    }
}

/// The slots after a poll of `id`: a filled slot is consumed, anything else
/// is left as it was.
pub open spec fn poll_slots(slots: Slots, id: Seq<char>) -> Slots {
    if slots.contains_key(id) && slots[id] is Some {
        slots.remove(id)
    } else {
        slots
    }
}

/// Whether a delivery to `id` is accepted: the slot exists and is empty.
pub open spec fn deliver_accepted(slots: Slots, id: Seq<char>) -> bool {
    slots.contains_key(id) && slots[id] is None
}

/// The slots after a delivery of `message` to `id`.
pub open spec fn deliver_slots(slots: Slots, id: Seq<char>, message: Seq<char>) -> Slots {
    if deliver_accepted(slots, id) {
        slots.insert(id, Some(message))
    } else {
        slots
    }
}

struct Entry {
    id: String,
    message: Option<String>,
}

spec fn text(message: Option<String>) -> Option<Seq<char>> {
    match message {
        None => None,
        Some(m) => Some(m@),
    }
}

spec fn distinct(entries: Seq<Entry>) -> bool {
    forall|i: int, j: int|
        0 <= i < entries.len() && 0 <= j < entries.len() && i != j ==> entries[i].id@
            != entries[j].id@
}

spec fn at(entries: Seq<Entry>, id: Seq<char>, i: int) -> bool {
    0 <= i < entries.len() && entries[i].id@ == id
}

spec fn slots_of(entries: Seq<Entry>) -> Slots {
    Map::new(
        |id: Seq<char>| exists|i: int| at(entries, id, i),
        |id: Seq<char>| text(entries[choose|i: int| at(entries, id, i)].message),
    )
}

proof fn lemma_slot_at(entries: Seq<Entry>, i: int)
    requires
        distinct(entries),
        0 <= i < entries.len(),
    ensures
        slots_of(entries).contains_key(entries[i].id@),
        slots_of(entries)[entries[i].id@] == text(entries[i].message),
{
    let id = entries[i].id@;
    assert(at(entries, id, i));
    let j = choose|j: int| at(entries, id, j);
    assert(j == i);
}

proof fn lemma_absent(entries: Seq<Entry>, id: Seq<char>)
    requires
        forall|j: int| 0 <= j < entries.len() ==> entries[j].id@ != id,
    ensures
        !slots_of(entries).contains_key(id),
{
    assert(forall|j: int| !at(entries, id, j));
}

proof fn lemma_updated(entries: Seq<Entry>, i: int, entry: Entry)
    requires
        distinct(entries),
        0 <= i < entries.len(),
        entry.id@ == entries[i].id@,
    ensures
        distinct(entries.update(i, entry)),
        slots_of(entries.update(i, entry)) == slots_of(entries).insert(
            entry.id@,
            text(entry.message),
        ),
{
    let after = entries.update(i, entry);
    assert(distinct(after)) by {
        assert forall|a: int, b: int|
            0 <= a < after.len() && 0 <= b < after.len() && a != b implies after[a].id@
            != after[b].id@ by {
            assert(after[a].id@ == entries[a].id@);
            assert(after[b].id@ == entries[b].id@);
        }
    }
    let target = slots_of(entries).insert(entry.id@, text(entry.message));
    assert forall|id: Seq<char>| slots_of(after).contains_key(id) <==> target.contains_key(
        id,
    ) by {
        if slots_of(after).contains_key(id) {
            let j = choose|j: int| at(after, id, j);
            assert(at(entries, id, j));
        }
        if target.contains_key(id) {
            if id == entry.id@ {
                assert(at(after, id, i));
            } else {
                let j = choose|j: int| at(entries, id, j);
                assert(at(after, id, j));
            }
        }
    }
    assert forall|id: Seq<char>| slots_of(after).contains_key(id) implies slots_of(after)[id]
        == target[id] by {
        let j = choose|j: int| at(after, id, j);
        lemma_slot_at(after, j);
        if j != i {
            lemma_slot_at(entries, j);
        }
    }
    assert(slots_of(after) =~= target);
}

proof fn lemma_pushed(entries: Seq<Entry>, entry: Entry)
    requires
        distinct(entries),
        forall|j: int| 0 <= j < entries.len() ==> entries[j].id@ != entry.id@,
    ensures
        distinct(entries.push(entry)),
        slots_of(entries.push(entry)) == slots_of(entries).insert(
            entry.id@,
            text(entry.message),
        ),
{
    let after = entries.push(entry);
    let last = entries.len() as int;
    assert(distinct(after));
    let target = slots_of(entries).insert(entry.id@, text(entry.message));
    assert forall|id: Seq<char>| slots_of(after).contains_key(id) <==> target.contains_key(
        id,
    ) by {
        if slots_of(after).contains_key(id) {
            let j = choose|j: int| at(after, id, j);
            if j != last {
                assert(at(entries, id, j));
            }
        }
        if target.contains_key(id) {
            if id == entry.id@ {
                assert(at(after, id, last));
            } else {
                let j = choose|j: int| at(entries, id, j);
                assert(at(after, id, j));
            }
        }
    }
    assert forall|id: Seq<char>| slots_of(after).contains_key(id) implies slots_of(after)[id]
        == target[id] by {
        let j = choose|j: int| at(after, id, j);
        lemma_slot_at(after, j);
        if j != last {
            lemma_slot_at(entries, j);
        }
    }
    assert(slots_of(after) =~= target);
}

proof fn lemma_removed(entries: Seq<Entry>, i: int)
    requires
        distinct(entries),
        0 <= i < entries.len(),
    ensures
        distinct(entries.remove(i)),
        slots_of(entries.remove(i)) == slots_of(entries).remove(entries[i].id@),
{
    let after = entries.remove(i);
    let gone = entries[i].id@;
    assert(distinct(after)) by {
        assert forall|a: int, b: int|
            0 <= a < after.len() && 0 <= b < after.len() && a != b implies after[a].id@
            != after[b].id@ by {
            let a0 = if a < i { a } else { a + 1 };
            let b0 = if b < i { b } else { b + 1 };
            assert(after[a] == entries[a0]);
            assert(after[b] == entries[b0]);
        }
    }
    let target = slots_of(entries).remove(gone);
    assert forall|id: Seq<char>| slots_of(after).contains_key(id) <==> target.contains_key(
        id,
    ) by {
        if slots_of(after).contains_key(id) {
            let j = choose|j: int| at(after, id, j);
            let j0 = if j < i { j } else { j + 1 };
            assert(after[j] == entries[j0]);
            assert(at(entries, id, j0));
        }
        if target.contains_key(id) {
            let j = choose|j: int| at(entries, id, j);
            assert(j != i);
            let j1 = if j < i { j } else { j - 1 };
            assert(after[j1] == entries[j]);
            assert(at(after, id, j1));
        }
    }
    assert forall|id: Seq<char>| slots_of(after).contains_key(id) implies slots_of(after)[id]
        == target[id] by {
        let j = choose|j: int| at(after, id, j);
        let j0 = if j < i { j } else { j + 1 };
        assert(after[j] == entries[j0]);
        lemma_slot_at(after, j);
        lemma_slot_at(entries, j0);
    }
    assert(slots_of(after) =~= target);
}

fn find(entries: &Vec<Entry>, key: &String) -> (r: Option<usize>)
    ensures
        match r {
            Some(i) => i < entries@.len() && entries@[i as int].id@ == key@,
            None => forall|j: int| 0 <= j < entries@.len() ==> entries@[j].id@ != key@,
        },
{
    let mut i: usize = 0;
    while i < entries.len()
        invariant
            i <= entries@.len(),
            forall|j: int| 0 <= j < i ==> entries@[j].id@ != key@,
        decreases entries@.len() - i,
    {
        if entries[i].id == *key {
            return Some(i);
        }
        i = i + 1;
    }
    None
}

/// The registry of reconnect jobs.
pub struct Registry {
    entries: Vec<Entry>,
}

impl View for Registry {
    type V = Slots;

    closed spec fn view(&self) -> Slots {
        slots_of(self.entries@)
    }
}

impl Registry {
    #[verifier::type_invariant]
    spec fn identifiers_distinct(self) -> bool {
        distinct(self.entries@)
    }

    /// An empty registry.
    pub fn new() -> (r: Registry)
        ensures
            r@ == Map::<Seq<char>, Option<Seq<char>>>::empty(),
    {
        let r = Registry { entries: Vec::new() };
        proof {
            assert(forall|id: Seq<char>, j: int| !at(r.entries@, id, j));
            assert(r@ =~= Map::<Seq<char>, Option<Seq<char>>>::empty());
        }
        r
    }

    /// Registers `id` with an empty slot. An identifier that is already
    /// registered starts over with an empty slot.
    pub fn register(&mut self, id: String)
        ensures
            final(self)@ == old(self)@.insert(id@, None),
    {
        proof {
            use_type_invariant(&*self);
        }
        let mut entries: Vec<Entry> = Vec::new();
        std::mem::swap(&mut entries, &mut self.entries);
        let found = find(&entries, &id);
        let entry = Entry { id, message: None };
        match found {
            Some(i) => {
                proof {
                    lemma_updated(entries@, i as int, entry);
                }
                entries.set(i, entry);
            },
            None => {
                proof {
                    lemma_pushed(entries@, entry);
                }
                entries.push(entry);
            },
        }
        self.entries = entries;
    }

    /// Delivers the terminal message of job `id`. The delivery is accepted,
    /// and `true` returned, when `id` is registered and its slot is empty;
    /// otherwise nothing changes.
    pub fn deliver(&mut self, id: &str, message: String) -> (accepted: bool)
        ensures
            accepted == deliver_accepted(old(self)@, id@),
            final(self)@ == deliver_slots(old(self)@, id@, message@),
    {
        proof {
            use_type_invariant(&*self);
        }
        let key = String::from_str(id);
        let mut entries: Vec<Entry> = Vec::new();
        std::mem::swap(&mut entries, &mut self.entries);
        let found = find(&entries, &key);
        let mut accepted = false;
        match found {
            Some(i) => {
                proof {
                    lemma_slot_at(entries@, i as int);
                }
                if entries[i].message.is_none() {
                    let entry = Entry { id: key, message: Some(message) };
                    proof {
                        lemma_updated(entries@, i as int, entry);
                    }
                    entries.set(i, entry);
                    accepted = true;
                }
            },
            None => {
                proof {
                    lemma_absent(entries@, key@);
                }
            },
        }
        self.entries = entries;
        accepted
    }

    /// Polls job `id`: the one-shot read of its slot.
    pub fn poll(&mut self, id: &str) -> (r: Echo)
        ensures
            r@ == poll_outcome(old(self)@, id@),
            final(self)@ == poll_slots(old(self)@, id@),
    {
        proof {
            use_type_invariant(&*self);
        }
        let key = String::from_str(id);
        let mut entries: Vec<Entry> = Vec::new();
        std::mem::swap(&mut entries, &mut self.entries);
        let found = find(&entries, &key);
        let mut r = Echo::NotFound;
        match found {
            Some(i) => {
                proof {
                    lemma_slot_at(entries@, i as int);
                }
                if entries[i].message.is_none() {
                    r = Echo::Pending;
                } else {
                    proof {
                        lemma_removed(entries@, i as int);
                    }
                    let entry = entries.remove(i);
                    match entry.message {
                        Some(m) => {
                            r = Echo::Message(m);
                        },
                        None => {},
                    }
                }
            },
            None => {
                proof {
                    lemma_absent(entries@, key@);
                }
            },
        }
        self.entries = entries;
        r
    }

    /// Whether `id` is registered.
    pub fn contains(&self, id: &str) -> (r: bool)
        ensures
            r == self@.contains_key(id@),
    {
        proof {
            use_type_invariant(self);
        }
        let key = String::from_str(id);
        match find(&self.entries, &key) {
            Some(i) => {
                proof {
                    lemma_slot_at(self.entries@, i as int);
                }
                true
            },
            None => {
                proof {
                    lemma_absent(self.entries@, key@);
                }
                false
            },
        }
    }
}

/// Polls job `id` in `registry`: "not found" for an identifier that is not
/// registered, "pending" for a job that has not delivered yet, and otherwise
/// the job's terminal message, whose slot is consumed by this read.
pub fn echo(id: &str, registry: &mut Registry) -> (r: Echo)
    ensures
        r@ == poll_outcome(old(registry)@, id@),
        final(registry)@ == poll_slots(old(registry)@, id@),
{
    registry.poll(id)
}

/// An identifier that is not registered polls as "not found", and the poll
/// changes nothing.
pub proof fn lemma_unregistered_is_not_found(slots: Slots, id: Seq<char>)
    requires
        !slots.contains_key(id),
    ensures
        poll_outcome(slots, id) == Outcome::NotFound,
        poll_slots(slots, id) == slots,
{
}

/// From its registration until its delivery a job polls as "pending", never
/// as "not found", and those polls change nothing.
pub proof fn lemma_registered_is_pending(slots: Slots, id: Seq<char>)
    ensures
        poll_outcome(slots.insert(id, None), id) == Outcome::Pending,
        poll_slots(slots.insert(id, None), id) == slots.insert(id, None),
{
}

/// A pending job accepts one delivery and no second one: the slot keeps the
/// first message.
pub proof fn lemma_delivered_once(
    slots: Slots,
    id: Seq<char>,
    first: Seq<char>,
    second: Seq<char>,
)
    requires
        poll_outcome(slots, id) == Outcome::Pending,
    ensures
        deliver_accepted(slots, id),
        !deliver_accepted(deliver_slots(slots, id, first), id),
        deliver_slots(deliver_slots(slots, id, first), id, second) == deliver_slots(
            slots,
            id,
            first,
        ),
{
}

/// A delivered message is read by exactly one poll: the first poll after the
/// delivery returns it and unregisters the identifier, and every poll after
/// that one finds nothing.
pub proof fn lemma_read_once(slots: Slots, id: Seq<char>, message: Seq<char>)
    requires
        deliver_accepted(slots, id),
    ensures
        poll_outcome(deliver_slots(slots, id, message), id) == Outcome::Message(message),
        poll_slots(deliver_slots(slots, id, message), id) == slots.remove(id),
        poll_outcome(slots.remove(id), id) == Outcome::NotFound,
        poll_slots(slots.remove(id), id) == slots.remove(id),
{
    let filled = deliver_slots(slots, id, message);
    assert(filled.remove(id) =~= slots.remove(id));
}

/// The life of a job's slot: pending from its registration, filled by the
/// delivery, read by the first poll after that, and gone afterwards, with
/// the registry as if the identifier had never been registered.
pub proof fn lemma_slot_lifecycle(slots: Slots, id: Seq<char>, message: Seq<char>)
    ensures
        ({
            let registered = slots.insert(id, None);
            let delivered = deliver_slots(registered, id, message);
            let read = poll_slots(delivered, id);
            &&& poll_outcome(registered, id) == Outcome::Pending
            &&& poll_slots(registered, id) == registered
            &&& deliver_accepted(registered, id)
            &&& poll_outcome(delivered, id) == Outcome::Message(message)
            &&& poll_outcome(read, id) == Outcome::NotFound
            &&& poll_slots(read, id) == read
            &&& read == slots.remove(id)
        }),
{
    let registered = slots.insert(id, None);
    let delivered = deliver_slots(registered, id, message);
    assert(delivered.remove(id) =~= slots.remove(id));
}

/// After any poll that returned a message, the identifier is not found.
pub proof fn lemma_consumed_is_not_found(slots: Slots, id: Seq<char>)
    requires
        poll_outcome(slots, id) is Message,
    ensures
        poll_outcome(poll_slots(slots, id), id) == Outcome::NotFound,
{
}

/// Jobs are tracked independently: registering, delivering to or polling one
/// identifier leaves what every other identifier polls as unchanged.
pub proof fn lemma_jobs_independent(
    slots: Slots,
    id: Seq<char>,
    other: Seq<char>,
    message: Seq<char>,
)
    requires
        id != other,
    ensures
        poll_outcome(slots.insert(id, None), other) == poll_outcome(slots, other),
        poll_outcome(deliver_slots(slots, id, message), other) == poll_outcome(slots, other),
        poll_outcome(poll_slots(slots, id), other) == poll_outcome(slots, other),
{
}

} // verus!
