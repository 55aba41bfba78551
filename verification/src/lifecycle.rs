use crate::error::{Refusal, StoreError};
use crate::identity::{Moment, NormalizedRunState, Run};
use crate::json::{fields, json_string, object, Payload};
use crate::protocol::{
    lifecycle_name, parse_lifecycle, spec_lifecycle_name, spec_parse_lifecycle, CheckpointCommand,
    CheckpointReceipt, DaemonLifecycle, DaemonSnapshot, EventEnvelope, PROTOCOL_VERSION,
};
use crate::store::{
    bump_refusal, journal_room, journaled, next_revision, next_sequence, out_of_range,
    CheckpointRow, Store, StoreView,
};
use crate::text::same_text;
use crate::uid::Uid;
use vstd::prelude::*;

verus! {

/// A run that a provider may be working on.
pub open spec fn run_active(run: Run) -> bool {
    ||| run.state == NormalizedRunState::Running
    ||| run.state == NormalizedRunState::Cancelling
    ||| run.state == NormalizedRunState::Recovering
    ||| run.state == NormalizedRunState::Starting && run.started_at is Some
}

pub fn is_run_active(run: &Run) -> (r: bool)
    ensures
        r == run_active(*run),
{
    run.state == NormalizedRunState::Running || run.state == NormalizedRunState::Cancelling
        || run.state == NormalizedRunState::Recovering || (run.state
        == NormalizedRunState::Starting && run.started_at.is_some())
}

pub open spec fn any_active(runs: Seq<Run>) -> bool {
    exists|i: int| 0 <= i < runs.len() && run_active(#[trigger] runs[i])
}

fn has_active(runs: &Vec<Run>) -> (r: bool)
    ensures
        r == any_active(runs@),
{
    let mut i: usize = 0;
    while i < runs.len()
        invariant
            i <= runs@.len(),
            forall|j: int| 0 <= j < i ==> !run_active(#[trigger] runs@[j]),
        decreases runs@.len() - i,
    {
        if is_run_active(&runs[i]) {
            assert(run_active(runs@[i as int]));
            return true;
        }
        i += 1;
    }
    false
}

/// Why a checkpoint is refused: the state has moved on, the daemon is not where
/// it has to be, or it would stop while providers work.
pub open spec fn checkpoint_refusal(
    s: StoreView,
    expected_revision: u64,
    required: Option<Seq<char>>,
    stopping: bool,
) -> Option<Refusal> {
    if s.revision != expected_revision {
        Some(Refusal::RevisionConflict { expected: expected_revision, actual: s.revision })
    } else if required is Some && s.lifecycle != required->0 {
        Some(Refusal::InvalidLifecycle { expected: required->0, actual: s.lifecycle })
    } else if stopping && any_active(s.identity.runs) {
        Some(Refusal::ProviderRunsActive)
    } else if bump_refusal(s.revision) is Some {
        bump_refusal(s.revision)
    } else if !journal_room(s.events, 1) {
        Some(Refusal::Database)
    } else {
        None
    }
}

pub open spec fn reason_payload(reason: Seq<char>) -> Seq<char> {
    object(fields().push(("reason"@, json_string(reason))))
}

/// What a checkpoint changes, and nothing else.
pub open spec fn checkpointed(
    pre: StoreView,
    post: StoreView,
    c: CheckpointCommand,
    lifecycle: DaemonLifecycle,
    kind: Seq<char>,
    receipt: CheckpointReceipt,
    now: Moment,
) -> bool {
    &&& receipt.protocol_version == PROTOCOL_VERSION
    &&& receipt.revision == pre.revision + 1
    &&& receipt.event_sequence == next_sequence(pre.events)
    &&& journaled(pre.events, post.events, kind, reason_payload(c.reason@), now)
    &&& post =~= StoreView {
        revision: receipt.revision,
        lifecycle: spec_lifecycle_name(lifecycle),
        checkpoints: pre.checkpoints.push(
            CheckpointRow {
                checkpoint_id: receipt.checkpoint_id,
                revision: receipt.revision,
                event_sequence: receipt.event_sequence,
                reason: c.reason,
                created_at: now.text,
            },
        ),
        events: post.events,
        ..pre
    }
}

pub open spec fn checkpoint_outcome(
    r: Result<CheckpointReceipt, StoreError>,
    before: Store,
    after: Store,
    c: CheckpointCommand,
    required: Option<Seq<char>>,
    lifecycle: DaemonLifecycle,
    kind: Seq<char>,
    now: Moment,
) -> bool {
    match checkpoint_refusal(
        before@,
        c.expected_revision,
        required,
        lifecycle == DaemonLifecycle::Stopping,
    ) {
        Some(refusal) => r is Err && r->Err_0@ == refusal && after == before,
        None => r is Ok && checkpointed(before@, after@, c, lifecycle, kind, r->Ok_0, now),
    }
}

/// What a change of lifecycle changes, and nothing else.
pub open spec fn transitioned(
    pre: StoreView,
    post: StoreView,
    lifecycle: DaemonLifecycle,
    kind: Seq<char>,
    payload: Seq<char>,
    event: EventEnvelope,
    now: Moment,
) -> bool {
    &&& event == post.events.last()
    &&& journaled(pre.events, post.events, kind, payload, now)
    &&& post =~= StoreView {
        revision: (pre.revision + 1) as u64,
        lifecycle: spec_lifecycle_name(lifecycle),
        events: post.events,
        ..pre
    }
}

/// Why the daemon does not resume.
pub open spec fn resume_refusal(s: StoreView, expected_revision: u64) -> Option<Refusal> {
    checkpoint_refusal(s, expected_revision, Some("suspended"@), false)
}

/// Why a lifecycle cannot be entered.
pub open spec fn transition_refusal(s: StoreView) -> Option<Refusal> {
    if bump_refusal(s.revision) is Some {
        bump_refusal(s.revision)
    } else if !journal_room(s.events, 1) {
        Some(Refusal::Database)
    } else {
        None
    }
}

impl EventEnvelope {
    pub fn copy(&self) -> (r: Self)
        ensures
            r == *self,
    {
        EventEnvelope {
            protocol_version: self.protocol_version,
            event_id: self.event_id,
            sequence: self.sequence,
            event_type: self.event_type.clone(),
            occurred_at: self.occurred_at.clone(),
            payload_json: self.payload_json.clone(),
        }
    }
}

/// The events of a journal, among its first `n`, that come after `sequence`.
pub open spec fn later_events(events: Seq<EventEnvelope>, sequence: u64, n: nat) -> Seq<EventEnvelope>
    decreases n,
{
    if n == 0 {
        Seq::empty()
    } else {
        let before = later_events(events, sequence, (n - 1) as nat);
        if events[n - 1].sequence > sequence {
            before.push(events[n - 1])
        } else {
            before
        }
    }
}

/// One of the checkpoints was taken for this revision.
pub open spec fn checkpoint_exists(checkpoints: Seq<CheckpointRow>, revision: u64) -> bool {
    exists|i: int| 0 <= i < checkpoints.len() && (#[trigger] checkpoints[i]).revision == revision
}

impl Store {
    pub fn snapshot(&self) -> (r: DaemonSnapshot)
        ensures
            r == (DaemonSnapshot {
                protocol_version: PROTOCOL_VERSION,
                daemon_id: self@.daemon_id,
                revision: self@.revision,
                lifecycle: spec_parse_lifecycle(self@.lifecycle),
            }),
    {
        DaemonSnapshot {
            protocol_version: PROTOCOL_VERSION,
            daemon_id: self.daemon_id,
            revision: self.revision,
            lifecycle: parse_lifecycle(self.lifecycle.as_str()),
        }
    }

    /// The events after `sequence`, in the order of the journal.
    pub fn events_after(&self, sequence: u64) -> (r: Vec<EventEnvelope>)
        ensures
            r@ == later_events(self@.events, sequence, self@.events.len()),
    {
        let mut found: Vec<EventEnvelope> = Vec::new();
        let mut i: usize = 0;
        while i < self.events.len()
            invariant
                i <= self.events@.len(),
                found@ == later_events(self@.events, sequence, i as nat),
            decreases self.events@.len() - i,
        {
            if self.events[i].sequence > sequence {
                found.push(self.events[i].copy());
            }
            i += 1;
        }
        found
    }

    /// Whether a checkpoint was made under a revision.
    pub fn has_checkpoint_for_revision(&self, revision: u64) -> (r: bool)
        ensures
            r == checkpoint_exists(self@.checkpoints, revision),
    {
        let mut i: usize = 0;
        while i < self.checkpoints.len()
            invariant
                i <= self.checkpoints@.len(),
                forall|j: int|
                    0 <= j < i ==> (#[trigger] self@.checkpoints[j]).revision != revision,
            decreases self.checkpoints@.len() - i,
        {
            if self.checkpoints[i].revision == revision {
                assert(self@.checkpoints[i as int].revision == revision);
                return true;
            }
            i += 1;
        }
        false
    }

    fn transition(&mut self, lifecycle: DaemonLifecycle, event_type: &str, payload: String, now: &Moment) -> (r:
        Result<EventEnvelope, StoreError>)
        ensures
            match transition_refusal(old(self)@) {
                Some(refusal) => r is Err && r->Err_0@ == refusal && *final(self) == *old(self),
                None => r is Ok && transitioned(
                    old(self)@,
                    final(self)@,
                    lifecycle,
                    event_type@,
                    payload@,
                    r->Ok_0,
                    *now,
                ),
            },
    {
        let revision = match next_revision(self.revision) {
            Ok(revision) => revision,
            Err(error) => {
                return Err(error);
            },
        };
        if !self.has_journal_room(1) {
            return Err(out_of_range());
        }
        self.insert_event(event_type, payload, now);
        self.revision = revision;
        self.lifecycle = lifecycle_name(&lifecycle).to_owned();
        Ok(self.events[self.events.len() - 1].copy())
    }

    pub fn mark_ready(&mut self, now: &Moment) -> (r: Result<EventEnvelope, StoreError>)
        ensures
            match transition_refusal(old(self)@) {
                Some(refusal) => r is Err && r->Err_0@ == refusal && *final(self) == *old(self),
                None => r is Ok && transitioned(
                    old(self)@,
                    final(self)@,
                    DaemonLifecycle::Ready,
                    "daemon.ready"@,
                    "{}"@,
                    r->Ok_0,
                    *now,
                ),
            },
    {
        self.transition(DaemonLifecycle::Ready, "daemon.ready", "{}".to_owned(), now)
    }

    fn persist_checkpoint(
        &mut self,
        command: CheckpointCommand,
        required_lifecycle: Option<&'static str>,
        final_lifecycle: DaemonLifecycle,
        event_type: &str,
        now: &Moment,
    ) -> (r: Result<CheckpointReceipt, StoreError>)
        ensures
            checkpoint_outcome(
                r,
                *old(self),
                *final(self),
                command,
                match required_lifecycle {
                    Some(name) => Some(name@),
                    None => None,
                },
                final_lifecycle,
                event_type@,
                *now,
            ),
    {
        if self.revision != command.expected_revision {
            return Err(
                StoreError::RevisionConflict {
                    expected: command.expected_revision,
                    actual: self.revision,
                },
            );
        }
        if let Some(expected) = required_lifecycle {
            if !same_text(self.lifecycle.as_str(), expected) {
                return Err(
                    StoreError::InvalidLifecycle { expected, actual: self.lifecycle.clone() },
                );
            }
        }
        if final_lifecycle == DaemonLifecycle::Stopping && has_active(&self.identity.runs) {
            return Err(StoreError::ProviderRunsActive);
        }
        let revision = match next_revision(self.revision) {
            Ok(revision) => revision,
            Err(error) => {
                return Err(error);
            },
        };
        if !self.has_journal_room(1) {
            return Err(out_of_range());
        }
        let payload = Payload::new().string("reason", command.reason.as_str()).finish();
        let event_sequence = self.insert_event(event_type, payload, now);
        let checkpoint_id = Uid::new();
        self.revision = revision;
        self.checkpoints.push(
            CheckpointRow {
                checkpoint_id,
                revision,
                event_sequence,
                reason: command.reason,
                created_at: now.text.clone(),
            },
        );
        self.lifecycle = lifecycle_name(&final_lifecycle).to_owned();
        Ok(
            CheckpointReceipt {
                protocol_version: PROTOCOL_VERSION,
                checkpoint_id,
                revision,
                event_sequence,
            },
        )
    }

    /// Makes a checkpoint of a daemon that is ready and stays so.
    pub fn checkpoint(&mut self, command: CheckpointCommand, now: &Moment) -> (r: Result<
        CheckpointReceipt,
        StoreError,
    >)
        ensures
            checkpoint_outcome(
                r,
                *old(self),
                *final(self),
                command,
                Some("ready"@),
                DaemonLifecycle::Ready,
                "daemon.checkpointed"@,
                *now,
            ),
    {
        self.persist_checkpoint(
            command,
            Some("ready"),
            DaemonLifecycle::Ready,
            "daemon.checkpointed",
            now,
        )
    }

    /// Makes the last checkpoint before the daemon stops. It is refused while a
    /// provider may be working.
    pub fn shutdown(&mut self, command: CheckpointCommand, now: &Moment) -> (r: Result<
        CheckpointReceipt,
        StoreError,
    >)
        ensures
            checkpoint_outcome(
                r,
                *old(self),
                *final(self),
                command,
                None,
                DaemonLifecycle::Stopping,
                "daemon.shutdown_requested"@,
                *now,
            ),
    {
        self.persist_checkpoint(
            command,
            None,
            DaemonLifecycle::Stopping,
            "daemon.shutdown_requested",
            now,
        )
    }

    /// Makes a checkpoint of a daemon that is ready, and suspends it.
    pub fn suspend(&mut self, command: CheckpointCommand, now: &Moment) -> (r: Result<
        CheckpointReceipt,
        StoreError,
    >)
        ensures
            checkpoint_outcome(
                r,
                *old(self),
                *final(self),
                command,
                Some("ready"@),
                DaemonLifecycle::Suspended,
                "daemon.suspended"@,
                *now,
            ),
    {
        self.persist_checkpoint(
            command,
            Some("ready"),
            DaemonLifecycle::Suspended,
            "daemon.suspended",
            now,
        )
    }

    /// Makes a suspended daemon ready again.
    pub fn resume(&mut self, command: CheckpointCommand, now: &Moment) -> (r: Result<
        EventEnvelope,
        StoreError,
    >)
        ensures
            match resume_refusal(old(self)@, command.expected_revision) {
                Some(refusal) => r is Err && r->Err_0@ == refusal && *final(self) == *old(self),
                None => r is Ok && transitioned(
                    old(self)@,
                    final(self)@,
                    DaemonLifecycle::Ready,
                    "daemon.resumed"@,
                    reason_payload(command.reason@),
                    r->Ok_0,
                    *now,
                ),
            },
    {
        if self.revision != command.expected_revision {
            return Err(
                StoreError::RevisionConflict {
                    expected: command.expected_revision,
                    actual: self.revision,
                },
            );
        }
        if !same_text(self.lifecycle.as_str(), "suspended") {
            return Err(
                StoreError::InvalidLifecycle {
                    expected: "suspended",
                    actual: self.lifecycle.clone(),
                },
            );
        }
        let payload = Payload::new().string("reason", command.reason.as_str()).finish();
        self.transition(DaemonLifecycle::Ready, "daemon.resumed", payload, now)
    }
}

} // verus!
