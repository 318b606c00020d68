//! The event log of one aggregate: appends under optimistic concurrency, gapless sequence
//! numbers, and periodic snapshots that only shorten replay.

use vstd::prelude::*;
use vstd::view::View as _;
use crate::aggregate::{
    lemma_replay_concat, spec_accepts, spec_decide_events, spec_decided, spec_replay, Task,
};
use crate::commands::Command;
use crate::errors::Error;
use crate::events::Event;
use crate::time::Timestamp;
use crate::view::{spec_payloads, spec_unique_keys, EventEnvelope};

verus! {

/// The snapshot interval used unless another is configured.
pub const DEFAULT_SNAPSHOT_EVERY: usize = 5;

/// A materialized state at a version of the log.
#[derive(Debug, PartialEq, Eq)]
pub struct Snapshot {
    pub version: usize,
    pub state: Task,
}

/// An append was issued against a version that is no longer the log's current one.
#[derive(Clone, Copy, Debug, PartialEq, Eq)]
pub struct ConcurrencyConflict {
    pub expected: usize,
    pub actual: usize,
}

/// Why a command was not committed.
#[derive(Debug, PartialEq, Eq)]
pub enum ExecuteError {
    /// The aggregate refused the command.
    Domain(Error),
    /// Another writer committed first.
    Conflict(ConcurrencyConflict),
}

/// The committed events of one aggregate, in commit order.
pub struct EventLog {
    pub aggregate_id: String,
    pub events: Vec<EventEnvelope>,
    pub snapshot_every: usize,
    pub snapshot: Snapshot,
    /// The state before the first event
    pub genesis: Ghost<Task>,
}

impl Clone for EventEnvelope {
    fn clone(&self) -> (r: Self)
        ensures
            r.aggregate_id == self.aggregate_id,
            r.sequence == self.sequence,
            r.payload == self.payload,
            r.metadata@ == self.metadata@,
    {
        EventEnvelope {
            aggregate_id: self.aggregate_id.clone(),
            sequence: self.sequence,
            payload: self.payload.clone(),
            metadata: clone_metadata(&self.metadata),
        }
    }
}

/// Copies a list of metadata pairs.
pub fn clone_metadata(m: &Vec<(String, String)>) -> (r: Vec<(String, String)>)
    ensures
        r@ == m@,
{
    let mut r: Vec<(String, String)> = Vec::new();
    let mut i: usize = 0;
    while i < m.len()
        invariant
            i <= m.len(),
            r@ == m@.subrange(0, i as int),
        decreases m.len() - i,
    {
        r.push((m[i].0.clone(), m[i].1.clone()));
        proof {
            assert(m@.subrange(0, i + 1) =~= m@.subrange(0, i as int).push(m@[i as int]));
        }
        i = i + 1;
    }
    assert(m@.subrange(0, i as int) =~= m@);
    r
}

/// Whether a snapshot is due after the log grew to `version`, the last one being at `last`.
pub open spec fn spec_snapshot_due(last: nat, version: nat, every: nat) -> bool
    recommends
        every > 0,
{
    version / every > last / every
}

impl EventLog {
    /// The log is well formed: every event belongs to this aggregate, sequence numbers run
    /// 1, 2, 3, ... without gaps, no metadata repeats a key, and the snapshot is the replay of the events it covers.
    pub open spec fn wf(&self) -> bool {
        &&& self.snapshot_every > 0
        &&& forall|i: int|
            0 <= i < self.events@.len() ==> (#[trigger] self.events@[i]).sequence == i + 1
                && self.events@[i].aggregate_id == self.aggregate_id
                && spec_unique_keys(self.events@[i].metadata@)
        &&& self.snapshot.version <= self.events@.len()
        &&& self.snapshot.state == spec_replay(
            self.genesis@,
            spec_payloads(self.events@.subrange(0, self.snapshot.version as int)),
        )
    }

    /// The current state of the aggregate: every committed event folded into the genesis state.
    pub open spec fn spec_state(&self) -> Task {
        spec_replay(self.genesis@, spec_payloads(self.events@))
    }

    /// An empty log for `aggregate_id` that snapshots every `snapshot_every` events.
    pub fn new(aggregate_id: String, snapshot_every: usize) -> (r: EventLog)
        requires
            snapshot_every > 0,
        ensures
            r.wf(),
            r.aggregate_id == aggregate_id,
            r.events@.len() == 0,
            r.snapshot_every == snapshot_every,
            r.genesis@.id@ == Seq::<char>::empty(),
            r.genesis@.name@ == Seq::<char>::empty(),
            r.genesis@.summary is None,
            !r.genesis@.done,
            !r.genesis@.deleted,
    {
        let state = Task::default();
        let ghost genesis = state;
        let r = EventLog {
            aggregate_id,
            events: Vec::new(),
            snapshot_every,
            snapshot: Snapshot { version: 0, state },
            genesis: Ghost(genesis),
        };
        assert(r.events@.subrange(0, 0) =~= Seq::<EventEnvelope>::empty());
        r
    }

    /// The sequence number of the last committed event; 0 for an empty log.
    pub fn version(&self) -> (r: usize)
        ensures
            r == self.events@.len(),
    {
        self.events.len()
    }

    /// The current state and version, replayed from the latest snapshot.
    pub fn load(&self) -> (r: (Task, usize))
        requires
            self.wf(),
        ensures
            r.0 == self.spec_state(),
            r.1 == self.events@.len(),
    {
        let mut state = self.snapshot.state.clone();
        let start = self.snapshot.version;
        let mut i: usize = start;
        while i < self.events.len()
            invariant
                self.wf(),
                start == self.snapshot.version,
                start <= i <= self.events@.len(),
                state == spec_replay(
                    self.snapshot.state,
                    spec_payloads(self.events@.subrange(start as int, i as int)),
                ),
            decreases self.events.len() - i,
        {
            proof {
                let next = self.events@.subrange(start as int, i + 1);
                assert(spec_payloads(next).drop_last() =~= spec_payloads(
                    self.events@.subrange(start as int, i as int),
                ));
            }
            state.apply(self.events[i].payload.clone());
            i = i + 1;
        }
        proof {
            let n = self.events@.len() as int;
            let before = spec_payloads(self.events@.subrange(0, start as int));
            let after = spec_payloads(self.events@.subrange(start as int, n));
            lemma_replay_concat(self.genesis@, before, after);
            assert(before + after =~= spec_payloads(self.events@));
        }
        (state, self.events.len())
    }

    /// Appends `events` if the log is still at `expected_version`, numbering them after the
    /// last committed one, and takes a snapshot when the log crosses a multiple of the interval.
    pub fn append(
        &mut self,
        expected_version: usize,
        events: Vec<Event>,
        metadata: &Vec<(String, String)>,
    ) -> (r: Result<(), ConcurrencyConflict>)
        requires
            old(self).wf(),
            old(self).events@.len() + events@.len() <= usize::MAX,
            spec_unique_keys(metadata@),
        ensures
            final(self).wf(),
            final(self).aggregate_id == old(self).aggregate_id,
            final(self).snapshot_every == old(self).snapshot_every,
            final(self).genesis == old(self).genesis,
            r is Ok <==> expected_version == old(self).events@.len(),
            r is Err ==> *final(self) == *old(self) && r->Err_0 == (ConcurrencyConflict {
                expected: expected_version,
                actual: old(self).events@.len() as usize,
            }),
            r is Ok ==> {
                &&& final(self).events@.len() == old(self).events@.len() + events@.len()
                &&& final(self).events@.subrange(0, old(self).events@.len() as int)
                    == old(self).events@
                &&& forall|i: int|
                    0 <= i < events@.len() ==> {
                        let e = #[trigger] final(self).events@[old(self).events@.len() + i];
                        &&& e.payload == events@[i]
                        &&& e.metadata@ == metadata@
                        &&& e.sequence == old(self).events@.len() + i + 1
                    }
                &&& spec_snapshot_due(
                    old(self).snapshot.version as nat,
                    final(self).events@.len(),
                    old(self).snapshot_every as nat,
                ) ==> final(self).snapshot.version == final(self).events@.len()
                &&& !spec_snapshot_due(
                    old(self).snapshot.version as nat,
                    final(self).events@.len(),
                    old(self).snapshot_every as nat,
                ) ==> final(self).snapshot == old(self).snapshot
            },
    {
        let actual = self.events.len();
        if expected_version != actual {
            return Err(ConcurrencyConflict { expected: expected_version, actual });
        }
        let ghost before = self.events@;
        let mut i: usize = 0;
        while i < events.len()
            invariant
                self.wf(),
                self.aggregate_id == old(self).aggregate_id,
                self.snapshot_every == old(self).snapshot_every,
                self.genesis == old(self).genesis,
                self.snapshot == old(self).snapshot,
                before == old(self).events@,
                actual == before.len(),
                actual + events@.len() <= usize::MAX,
                spec_unique_keys(metadata@),
                i <= events@.len(),
                self.events@.len() == actual + i,
                self.events@.subrange(0, actual as int) == before,
                forall|j: int|
                    0 <= j < i ==> {
                        let e = #[trigger] self.events@[actual + j];
                        &&& e.payload == events@[j]
                        &&& e.metadata@ == metadata@
                        &&& e.sequence == actual + j + 1
                    },
            decreases events.len() - i,
        {
            let envelope = EventEnvelope {
                aggregate_id: self.aggregate_id.clone(),
                sequence: actual + i + 1,
                payload: events[i].clone(),
                metadata: clone_metadata(metadata),
            };
            let ghost prev = self.events@;
            self.events.push(envelope);
            proof {
                assert(self.events@.subrange(0, actual as int) =~= prev.subrange(0, actual as int));
                assert(self.events@.subrange(0, self.snapshot.version as int) =~= prev.subrange(
                    0,
                    self.snapshot.version as int,
                ));
                assert forall|j: int| 0 <= j < self.events@.len() implies (
                #[trigger] self.events@[j]).sequence == j + 1 && self.events@[j].aggregate_id
                    == self.aggregate_id && spec_unique_keys(self.events@[j].metadata@) by {
                    if j < prev.len() {
                        assert(self.events@[j] == prev[j]);
                    }
                }
            }
            i = i + 1;
        }
        let version = self.events.len();
        if version / self.snapshot_every > self.snapshot.version / self.snapshot_every {
            let (state, _) = self.load();
            proof {
                assert(self.events@.subrange(0, version as int) =~= self.events@);
            }
            self.snapshot = Snapshot { version, state };
        }
        Ok(())
    }

    /// Runs `command` against the current state and commits the events it produces, stamped
    /// with `now` and carrying `metadata`.
    pub fn execute(
        &mut self,
        command: Command,
        now: Timestamp,
        metadata: &Vec<(String, String)>,
    ) -> (r: Result<(), ExecuteError>)
        requires
            old(self).wf(),
            old(self).events@.len() < usize::MAX,
            spec_unique_keys(metadata@),
        ensures
            final(self).wf(),
            final(self).aggregate_id == old(self).aggregate_id,
            final(self).genesis == old(self).genesis,
            r is Ok <==> spec_accepts(old(self).spec_state(), command),
            r is Err ==> final(self).events == old(self).events,
            r is Err ==> (r matches Err(ExecuteError::Domain(e)) && spec_decided(
                old(self).spec_state(),
                command,
                now,
                Err(e),
            )),
            r is Ok ==> {
                let decided = spec_decide_events(old(self).spec_state(), command, now);
                let n = old(self).events@.len();
                &&& final(self).events@.len() == n + decided.len()
                &&& final(self).events@.subrange(0, n as int) == old(self).events@
                &&& forall|i: int|
                    0 <= i < decided.len() ==> {
                        let e = #[trigger] final(self).events@[n + i];
                        &&& e.payload == decided[i]
                        &&& e.metadata@ == metadata@
                        &&& e.sequence == n + i + 1
                    }
                &&& final(self).spec_state() == spec_replay(old(self).spec_state(), decided)
            },
    {
        let (state, version) = self.load();
        let ghost decided = spec_decide_events(state, command, now);
        let events = match state.decide(command, now) {
            Ok(events) => events,
            Err(e) => return Err(ExecuteError::Domain(e)),
        };
        let ghost before = self.events@;
        match self.append(version, events, metadata) {
            Ok(()) => {},
            Err(c) => return Err(ExecuteError::Conflict(c)),
        }
        proof {
            let added = self.events@.subrange(before.len() as int, self.events@.len() as int);
            assert(self.events@ =~= before + added);
            assert(spec_payloads(added) =~= decided);
            assert(spec_payloads(self.events@) =~= spec_payloads(before) + spec_payloads(added));
            lemma_replay_concat(self.genesis@, spec_payloads(before), decided);
        }
        Ok(())
    }
}

/// Sequence numbers of a well-formed log are exactly 1, 2, 3, ... in commit order: no gaps,
/// no repeats.
pub proof fn lemma_sequences_gapless(log: EventLog, i: int, j: int)
    requires
        log.wf(),
        0 <= i < j < log.events@.len(),
    ensures
        log.events@[i].sequence == i + 1,
        log.events@[j].sequence == log.events@[i].sequence + (j - i),
{
}

} // verus!
