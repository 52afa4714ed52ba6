//! Session state: the last commanded lock state of each controllable device.
//!
//! The firmware offers no way to read the lock state back. What the session
//! holds is what was last asked of a device and whether the request went
//! through; it is no measurement of the device.

use vstd::prelude::*;
use vstd::pervasive::VecAdditionalExecFns;

use crate::catalog::DeviceIdentity;
use crate::codec::Command;
use crate::error::Error;
use crate::error::ErrorView;

verus! {

/// What the session knows of one device.
#[derive(Debug)]
pub struct SessionEntry {
    pub identity: DeviceIdentity,
    /// The state that was last asked for; `None` until a toggle is attempted.
    pub last_requested_state: Option<Command>,
    /// How the last attempt ended.
    pub last_result: Result<(), Error>,
}

/// A [`SessionEntry`] as contracts see it.
pub struct SessionEntryView {
    pub identity: DeviceIdentity,
    pub last_requested_state: Option<Command>,
    pub last_result: Result<(), ErrorView>,
}

impl View for SessionEntry {
    type V = SessionEntryView;

    open spec fn view(&self) -> SessionEntryView {
        SessionEntryView {
            identity: self.identity,
            last_requested_state: self.last_requested_state,
            last_result: match self.last_result {
                Ok(_) => Ok(()),
                Err(error) => Err(error@),
            },
        }
    }
}

/// The commanded state of a device, as a front end shows it.
#[derive(Clone, Copy, Debug, PartialEq, Eq, Structural)]
pub enum LockState {
    /// Nothing has been asked of the device yet.
    Unknown,
    /// The last request was to lock, and it went through.
    Locked,
    /// The last request was to unlock, and it went through.
    Unlocked,
    /// The last request, to lock or to unlock, did not go through.
    Failed(Command),
}

/// The commanded state that `entry` stands for.
pub open spec fn lock_state(entry: SessionEntryView) -> LockState {
    match entry.last_requested_state {
        None => LockState::Unknown,
        Some(command) => match entry.last_result {
            Err(_) => LockState::Failed(command),
            Ok(_) => match command {
                Command::Lock => LockState::Locked,
                Command::Unlock => LockState::Unlocked,
            },
        },
    }
}

/// The entry of a device of which nothing has been asked yet.
pub open spec fn unknown_entry(identity: DeviceIdentity) -> SessionEntryView {
    SessionEntryView { identity, last_requested_state: None, last_result: Ok(()) }
}

/// The entry of a device after `intent` was attempted and ended in `outcome`.
pub open spec fn recorded_entry(
    identity: DeviceIdentity,
    intent: Command,
    outcome: Result<(), ErrorView>,
) -> SessionEntryView {
    SessionEntryView { identity, last_requested_state: Some(intent), last_result: outcome }
}

/// The session after `intent` on `identity` ended in `outcome`.
pub open spec fn record_spec(
    session: Map<DeviceIdentity, SessionEntryView>,
    identity: DeviceIdentity,
    intent: Command,
    outcome: Result<(), ErrorView>,
) -> Map<DeviceIdentity, SessionEntryView> {
    session.insert(identity, recorded_entry(identity, intent, outcome))
}

/// The session after `identity` was classified as a target.
pub open spec fn track_spec(
    session: Map<DeviceIdentity, SessionEntryView>,
    identity: DeviceIdentity,
) -> Map<DeviceIdentity, SessionEntryView> {
    if session.contains_key(identity) {
        session
    } else {
        session.insert(identity, unknown_entry(identity))
    }
}

/// The session after an enumeration in which only the devices of `present`
/// were seen.
pub open spec fn retain_spec(
    session: Map<DeviceIdentity, SessionEntryView>,
    present: Seq<DeviceIdentity>,
) -> Map<DeviceIdentity, SessionEntryView> {
    session.restrict(present.to_set())
}

/// The view of an attempt's outcome.
pub open spec fn outcome_view(outcome: Result<(), Error>) -> Result<(), ErrorView> {
    match outcome {
        Ok(_) => Ok(()),
        Err(error) => Err(error@),
    }
}

/// The commanded state of `identity` in `session`: that of its entry, and
/// `Unknown` where it has none.
pub open spec fn state_in(
    session: Map<DeviceIdentity, SessionEntryView>,
    identity: DeviceIdentity,
) -> LockState {
    if session.contains_key(identity) {
        lock_state(session[identity])
    } else {
        LockState::Unknown
    }
}

/// The commanded state that a successful `intent` leads to.
pub open spec fn state_after(intent: Command) -> LockState {
    match intent {
        Command::Lock => LockState::Locked,
        Command::Unlock => LockState::Unlocked,
    }
}

/// A command that went through leads to its own state, whatever the session
/// held before: a device is locked after `Lock` and unlocked after `Unlock`,
/// from `Unknown`, `Locked`, `Unlocked` or a failure alike.
pub proof fn lemma_success_sets_state(
    session: Map<DeviceIdentity, SessionEntryView>,
    identity: DeviceIdentity,
    intent: Command,
)
    ensures
        state_in(record_spec(session, identity, intent, Ok(())), identity) == state_after(intent),
        record_spec(session, identity, intent, Ok(()))[identity] == recorded_entry(
            identity,
            intent,
            Ok(()),
        ),
{
}

/// `Lock`, then `Unlock`, then `Lock` on one device, each going through,
/// leave it `Locked`, then `Unlocked`, then `Locked`.
pub proof fn lemma_lock_unlock_lock(
    session: Map<DeviceIdentity, SessionEntryView>,
    identity: DeviceIdentity,
)
    ensures
        ({
            let first = record_spec(session, identity, Command::Lock, Ok(()));
            let second = record_spec(first, identity, Command::Unlock, Ok(()));
            let third = record_spec(second, identity, Command::Lock, Ok(()));
            &&& state_in(first, identity) == LockState::Locked
            &&& state_in(second, identity) == LockState::Unlocked
            &&& state_in(third, identity) == LockState::Locked
        }),
{
}

/// Recording the same attempt twice in a row is recording it once.
pub proof fn lemma_record_is_idempotent(
    session: Map<DeviceIdentity, SessionEntryView>,
    identity: DeviceIdentity,
    intent: Command,
    outcome: Result<(), ErrorView>,
)
    ensures
        record_spec(record_spec(session, identity, intent, outcome), identity, intent, outcome)
            == record_spec(session, identity, intent, outcome),
{
    assert(record_spec(record_spec(session, identity, intent, outcome), identity, intent, outcome)
        =~= record_spec(session, identity, intent, outcome));
}

/// An attempt that failed leaves the entry of its device with the state that
/// was asked for and with the failure, and leaves every other entry alone.
pub proof fn lemma_failure_is_recorded(
    session: Map<DeviceIdentity, SessionEntryView>,
    identity: DeviceIdentity,
    intent: Command,
    error: ErrorView,
)
    ensures
        ({
            let after = record_spec(session, identity, intent, Err(error));
            &&& after.contains_key(identity)
            &&& after[identity].last_requested_state == Some(intent)
            &&& after[identity].last_result == Err::<(), ErrorView>(error)
            &&& state_in(after, identity) == LockState::Failed(intent)
            &&& forall|other: DeviceIdentity|
                other != identity ==> (after.contains_key(other) <==> session.contains_key(other))
            &&& forall|other: DeviceIdentity|
                other != identity && session.contains_key(other) ==> after[other] == session[other]
        }),
{
}

impl SessionEntry {
    /// The commanded state that this entry stands for.
    pub fn state(&self) -> (state: LockState)
        ensures
            state == lock_state(self@),
    {
        match self.last_requested_state {
            None => LockState::Unknown,
            Some(command) => match &self.last_result {
                Err(_) => LockState::Failed(command),
                Ok(_) => match command {
                    Command::Lock => LockState::Locked,
                    Command::Unlock => LockState::Unlocked,
                },
            },
        }
    }
}

impl Clone for SessionEntry {
    fn clone(&self) -> (copy: Self)
        ensures
            copy@ == self@,
    {
        SessionEntry {
            identity: self.identity,
            last_requested_state: self.last_requested_state,
            last_result: match &self.last_result {
                Ok(_) => Ok(()),
                Err(error) => Err(error.clone()),
            },
        }
    }
}

/// Some entry of `entries` is that of `identity`.
spec fn has_entry(entries: Seq<SessionEntry>, identity: DeviceIdentity) -> bool {
    exists|i: int| 0 <= i < entries.len() && (#[trigger] entries[i]).identity == identity
}

/// Where the entry of `identity` stands in `entries`.
spec fn entry_index(entries: Seq<SessionEntry>, identity: DeviceIdentity) -> int {
    choose|i: int| 0 <= i < entries.len() && (#[trigger] entries[i]).identity == identity
}

/// No two entries of `entries` are of the same device.
spec fn distinct(entries: Seq<SessionEntry>) -> bool {
    forall|i: int, j: int|
        0 <= i < j < entries.len() ==> (#[trigger] entries[i]).identity != (
        #[trigger] entries[j]).identity
}

/// The map from identity to entry that `entries` stands for.
spec fn entries_map(entries: Seq<SessionEntry>) -> Map<DeviceIdentity, SessionEntryView> {
    Map::new(
        |identity: DeviceIdentity| has_entry(entries, identity),
        |identity: DeviceIdentity| entries[entry_index(entries, identity)]@,
    )
}

/// In a sequence of distinct entries, the entry of an identity is the one
/// found at any position that holds it.
proof fn lemma_entry_index(entries: Seq<SessionEntry>, i: int)
    requires
        distinct(entries),
        0 <= i < entries.len(),
    ensures
        has_entry(entries, entries[i].identity),
        entry_index(entries, entries[i].identity) == i,
{
    let j = entry_index(entries, entries[i].identity);
    assert(0 <= j < entries.len() && entries[j].identity == entries[i].identity);
}

/// Where the entry of `identity` stands in `entries`, if there is one.
fn find(entries: &Vec<SessionEntry>, identity: DeviceIdentity) -> (found: Option<usize>)
    requires
        distinct(entries@),
    ensures
        match found {
            Some(i) => i < entries.len() && entries[i as int].identity == identity && entry_index(
                entries@,
                identity,
            ) == i,
            None => !has_entry(entries@, identity),
        },
{
    let mut i: usize = 0;
    while i < entries.len()
        invariant
            i <= entries.len(),
            distinct(entries@),
            forall|j: int| 0 <= j < i ==> (#[trigger] entries[j]).identity != identity,
        decreases entries.len() - i,
    {
        if entries[i].identity == identity {
            proof {
                lemma_entry_index(entries@, i as int);
            }
            return Some(i);
        }
        i = i + 1;
    }
    None
}

/// `entry` is one of `before` from position `from` on.
spec fn taken_from(before: Seq<SessionEntry>, from: int, entry: SessionEntry) -> bool {
    exists|j: int| from <= j < before.len() && #[trigger] before[j] == entry
}

/// `kept` holds, each once, those entries of `before` from position `from` on
/// whose identity is among `present`.
spec fn holds_present(
    kept: Seq<SessionEntry>,
    before: Seq<SessionEntry>,
    from: int,
    present: Seq<DeviceIdentity>,
) -> bool {
    &&& distinct(kept)
    &&& forall|k: int|
        0 <= k < kept.len() ==> present.contains((#[trigger] kept[k]).identity) && taken_from(
            before,
            from,
            kept[k],
        )
    &&& forall|j: int|
        from <= j < before.len() && present.contains((#[trigger] before[j]).identity)
            ==> taken_from(kept, 0, before[j])
}

/// Keeping the entry before position `from`.
proof fn lemma_keep(
    kept: Seq<SessionEntry>,
    before: Seq<SessionEntry>,
    from: int,
    present: Seq<DeviceIdentity>,
)
    requires
        distinct(before),
        0 < from <= before.len(),
        holds_present(kept, before, from, present),
        present.contains(before[from - 1].identity),
    ensures
        holds_present(kept.push(before[from - 1]), before, from - 1, present),
{
    let entry = before[from - 1];
    let more = kept.push(entry);
    assert forall|k: int| 0 <= k < kept.len() implies (#[trigger] kept[k]).identity
        != entry.identity by {
        assert(taken_from(before, from, kept[k]));
        let j = choose|j: int| from <= j < before.len() && #[trigger] before[j] == kept[k];
        assert(before[from - 1].identity != before[j].identity);
    }
    assert(distinct(more));
    assert forall|k: int| 0 <= k < more.len() implies present.contains(
        (#[trigger] more[k]).identity,
    ) && taken_from(before, from - 1, more[k]) by {
        if k < kept.len() {
            assert(more[k] == kept[k]);
            assert(taken_from(before, from, kept[k]));
            let j = choose|j: int| from <= j < before.len() && #[trigger] before[j] == kept[k];
            assert(before[j] == more[k]);
        } else {
            assert(before[from - 1] == more[k]);
        }
    }
    assert forall|j: int|
        from - 1 <= j < before.len() && present.contains(
            (#[trigger] before[j]).identity,
        ) implies taken_from(more, 0, before[j]) by {
        if j == from - 1 {
            assert(more[more.len() - 1] == before[j]);
        } else {
            assert(taken_from(kept, 0, before[j]));
            let k = choose|k: int| 0 <= k < kept.len() && #[trigger] kept[k] == before[j];
            assert(more[k] == before[j]);
        }
    }
}

/// Passing over the entry before position `from`.
proof fn lemma_skip(
    kept: Seq<SessionEntry>,
    before: Seq<SessionEntry>,
    from: int,
    present: Seq<DeviceIdentity>,
)
    requires
        0 < from <= before.len(),
        holds_present(kept, before, from, present),
        !present.contains(before[from - 1].identity),
    ensures
        holds_present(kept, before, from - 1, present),
{
    assert forall|k: int| 0 <= k < kept.len() implies taken_from(
        before,
        from - 1,
        #[trigger] kept[k],
    ) by {
        assert(taken_from(before, from, kept[k]));
        let j = choose|j: int| from <= j < before.len() && #[trigger] before[j] == kept[k];
        assert(before[j] == kept[k]);
    }
}

/// What holds the present entries of all of `before` stands for the session
/// of `before`, restricted to the present identities.
proof fn lemma_held_is_restriction(
    kept: Seq<SessionEntry>,
    before: Seq<SessionEntry>,
    present: Seq<DeviceIdentity>,
)
    requires
        distinct(before),
        holds_present(kept, before, 0, present),
    ensures
        entries_map(kept) == entries_map(before).restrict(present.to_set()),
{
    let target = entries_map(before).restrict(present.to_set());
    assert forall|other: DeviceIdentity| has_entry(kept, other) <==> (has_entry(before, other)
        && present.contains(other)) by {
        if has_entry(kept, other) {
            let k = entry_index(kept, other);
            assert(taken_from(before, 0, kept[k]));
            let j = choose|j: int| 0 <= j < before.len() && #[trigger] before[j] == kept[k];
            assert(before[j].identity == other);
        }
        if has_entry(before, other) && present.contains(other) {
            let j = entry_index(before, other);
            assert(taken_from(kept, 0, before[j]));
            let k = choose|k: int| 0 <= k < kept.len() && #[trigger] kept[k] == before[j];
            assert(kept[k].identity == other);
        }
    }
    assert forall|other: DeviceIdentity| has_entry(kept, other) implies entries_map(kept)[other]
        == target[other] by {
        let k = entry_index(kept, other);
        assert(taken_from(before, 0, kept[k]));
        let j = choose|j: int| 0 <= j < before.len() && #[trigger] before[j] == kept[k];
        lemma_entry_index(before, j);
    }
    assert(entries_map(kept) =~= target);
}

/// Whether `identity` is among `present`.
fn is_present(present: &[DeviceIdentity], identity: DeviceIdentity) -> (found: bool)
    ensures
        found == present@.contains(identity),
{
    let mut i: usize = 0;
    while i < present.len()
        invariant
            i <= present.len(),
            forall|j: int| 0 <= j < i ==> #[trigger] present[j] != identity,
        decreases present.len() - i,
    {
        if present[i] == identity {
            return true;
        }
        i = i + 1;
    }
    false
}

/// The per-device session state: at most one entry for each identity.
#[derive(Debug)]
pub struct SessionState {
    entries: Vec<SessionEntry>,
}

impl View for SessionState {
    type V = Map<DeviceIdentity, SessionEntryView>;

    closed spec fn view(&self) -> Map<DeviceIdentity, SessionEntryView> {
        entries_map(self.entries@)
    }
}

impl SessionState {
    #[verifier::type_invariant]
    spec fn one_entry_each(self) -> bool {
        distinct(self.entries@)
    }

    /// A session that knows no device.
    pub fn new() -> (session: SessionState)
        ensures
            session@ == Map::<DeviceIdentity, SessionEntryView>::empty(),
    {
        let session = SessionState { entries: Vec::new() };
        assert(session@ =~= Map::<DeviceIdentity, SessionEntryView>::empty());
        session
    }

    /// The entry of `identity`, if the session has one.
    pub fn get(&self, identity: DeviceIdentity) -> (entry: Option<&SessionEntry>)
        ensures
            match entry {
                Some(entry) => self@.contains_key(identity) && entry@ == self@[identity],
                None => !self@.contains_key(identity),
            },
    {
        proof {
            use_type_invariant(self);
        }
        match find(&self.entries, identity) {
            Some(i) => Some(&self.entries[i]),
            None => None,
        }
    }

    /// Puts `entry` in the place of the entry of its identity, or adds it.
    fn put(&mut self, entry: SessionEntry)
        ensures
            final(self)@ == old(self)@.insert(entry.identity, entry@),
    {
        proof {
            use_type_invariant(&*self);
        }
        let ghost before = self.entries@;
        let ghost identity = entry.identity;
        let ghost added = entry@;
        let mut entries: Vec<SessionEntry> = Vec::new();
        core::mem::swap(&mut self.entries, &mut entries);
        match find(&entries, entry.identity) {
            Some(i) => {
                entries.set(i, entry);
            },
            None => {
                entries.push(entry);
            },
        }
        proof {
            let after = entries@;
            assert(distinct(after));
            let target = entries_map(before).insert(identity, added);
            assert forall|other: DeviceIdentity| has_entry(after, other) <==> (other == identity
                || has_entry(before, other)) by {
                if has_entry(after, other) && other != identity {
                    let j = entry_index(after, other);
                    assert(before[j].identity == other);
                }
                if has_entry(before, other) && other != identity {
                    let j = entry_index(before, other);
                    assert(after[j].identity == other);
                }
                if other == identity {
                    if has_entry(before, identity) {
                        let j = entry_index(before, identity);
                        assert(after[j].identity == identity);
                    } else {
                        assert(after[after.len() - 1].identity == identity);
                    }
                }
            }
            assert forall|other: DeviceIdentity| has_entry(after, other) implies entries_map(
                after,
            )[other] == target[other] by {
                let j = entry_index(after, other);
                lemma_entry_index(after, j);
                if other != identity {
                    assert(before[j].identity == other);
                    lemma_entry_index(before, j);
                }
            }
            assert(entries_map(after) =~= target);
        }
        self.entries = entries;
    }

    /// Makes an entry for `identity`, of which nothing has been asked yet,
    /// unless the session has one already.
    pub fn track(&mut self, identity: DeviceIdentity)
        ensures
            final(self)@ == track_spec(old(self)@, identity),
    {
        if self.get(identity).is_none() {
            self.put(SessionEntry { identity, last_requested_state: None, last_result: Ok(()) });
        }
    }

    /// Drops the entries of the devices that a later enumeration no longer
    /// shows: only the entries of the identities in `present` stay.
    pub fn retain(&mut self, present: &[DeviceIdentity])
        ensures
            final(self)@ == retain_spec(old(self)@, present@),
    {
        proof {
            use_type_invariant(&*self);
        }
        let ghost before = self.entries@;
        let mut rest: Vec<SessionEntry> = Vec::new();
        core::mem::swap(&mut self.entries, &mut rest);
        let mut kept: Vec<SessionEntry> = Vec::new();
        while rest.len() > 0
            invariant
                distinct(before),
                rest.len() <= before.len(),
                rest@ == before.take(rest.len() as int),
                holds_present(kept@, before, rest.len() as int, present@),
            decreases rest.len(),
        {
            let ghost from = rest.len() as int;
            let entry = rest.pop().unwrap();
            assert(entry == before[from - 1]);
            if is_present(present, entry.identity) {
                proof {
                    lemma_keep(kept@, before, from, present@);
                }
                kept.push(entry);
            } else {
                proof {
                    lemma_skip(kept@, before, from, present@);
                }
            }
        }
        proof {
            lemma_held_is_restriction(kept@, before, present@);
        }
        self.entries = kept;
    }

    /// Records that `intent` was attempted on `identity` and ended in
    /// `outcome`: the entry of `identity` is replaced, or made.
    pub fn record(&mut self, identity: DeviceIdentity, intent: Command, outcome: Result<(), Error>)
        ensures
            final(self)@ == record_spec(old(self)@, identity, intent, outcome_view(outcome)),
    {
        self.put(SessionEntry { identity, last_requested_state: Some(intent), last_result: outcome });
    }
}

} // verus!
