use crate::attempts::{is_current_attempt, is_current_run};
use crate::error::{CatalogError, Refusal, StoreError};
use crate::identity::{
    text_of, CatalogView, EntityMetadata, Moment, NormalizedRunState, Run, Session,
};
use crate::json::{fields, json_uid, object, Payload};
use crate::protocol::{CancelRunReceipt, PROTOCOL_VERSION};
use crate::store::{
    bump_refusal, journal_room, journaled, next_revision, next_sequence, out_of_range, Store,
    StoreView,
};
use crate::text::{blank, is_blank};
use crate::uid::{find, position, RunId};
use vstd::prelude::*;

verus! {

pub open spec fn run_payload(run_id: RunId) -> Seq<char> {
    object(fields().push(("run_id"@, json_uid(run_id))))
}

/// Why a run cannot be cancelled at the provider.
pub open spec fn preflight_cancel_refusal(s: StoreView, run_id: RunId, expected_revision: u64) -> Option<Refusal> {
    if s.identity_revision != expected_revision {
        Some(
            Refusal::RevisionConflict { expected: expected_revision, actual: s.identity_revision },
        )
    } else {
        match find(s.identity.runs, run_id) {
            None => Some(Refusal::RunNotFound),
            Some(i) => if s.identity.runs[i].state != NormalizedRunState::Running
                && s.identity.runs[i].state != NormalizedRunState::Recovering {
                Some(Refusal::InvalidRunState(s.identity.runs[i].state.spec_label()))
            } else {
                None
            },
        }
    }
}

/// The run and the session that a report of progress is about; or why it is not
/// taken.
pub open spec fn running_target(s: StoreView, run_id: RunId, session_name: Option<Seq<char>>) -> Result<
    (int, int),
    Refusal,
> {
    if session_name is Some && blank(session_name->0) {
        Err(Refusal::InvalidRunState("empty provider session id"@))
    } else if !is_current_attempt(s.node_runs, run_id) {
        Err(Refusal::InvalidRunState("run is not the current graph node attempt"@))
    } else {
        match find(s.identity.runs, run_id) {
            None => Err(Refusal::RunNotFound),
            Some(i) => {
                let run = s.identity.runs[i];
                if run.state != NormalizedRunState::Starting && run.state
                    != NormalizedRunState::Running && run.state != NormalizedRunState::Cancelling {
                    Err(Refusal::InvalidRunState(run.state.spec_label()))
                } else {
                    match find(s.identity.sessions, run.session_id) {
                        None => Err(Refusal::RunNotFound),
                        Some(j) => Ok((i, j)),
                    }
                }
            },
        }
    }
}

/// Whether a report of progress is the first that says the run runs.
pub open spec fn starts(run: Run) -> bool {
    run.state == NormalizedRunState::Starting
}

/// Whether a report of progress names the session anew.
pub open spec fn renames(session: Session, session_name: Option<Seq<char>>) -> bool {
    session_name is Some && text_of(session.provider_session_id) != session_name
}

/// Why a report of progress that changes something is not recorded.
pub open spec fn running_refusal(
    s: StoreView,
    i: int,
    j: int,
    session_name: Option<Seq<char>>,
    catalog_fault: Option<CatalogError>,
) -> Option<Refusal> {
    let run = s.identity.runs[i];
    let session = s.identity.sessions[j];
    if starts(run) && run.metadata.revision == u64::MAX {
        Some(Refusal::RevisionOverflow)
    } else if renames(session, session_name) && session.metadata.revision == u64::MAX {
        Some(Refusal::RevisionOverflow)
    } else if !starts(run) && !renames(session, session_name) {
        None
    } else if catalog_fault is Some {
        Some(Refusal::InvalidCatalog(catalog_fault->0))
    } else if bump_refusal(s.identity_revision) is Some {
        bump_refusal(s.identity_revision)
    } else if !journal_room(s.events, 1) {
        Some(Refusal::Database)
    } else {
        None
    }
}

pub open spec fn run_in_state(run: Run, state: NormalizedRunState, now: Moment) -> Run {
    Run {
        state,
        metadata: EntityMetadata {
            revision: (run.metadata.revision + 1) as u64,
            updated_at: now.text,
            ..run.metadata
        },
        ..run
    }
}

/// What a report of progress changes, and nothing else. It never takes a
/// cancellation or an end back.
pub open spec fn progress_recorded(
    pre: StoreView,
    post: StoreView,
    run_id: RunId,
    i: int,
    j: int,
    session_name: Option<Seq<char>>,
    now: Moment,
) -> bool {
    let run = pre.identity.runs[i];
    let session = pre.identity.sessions[j];
    let next = post.identity.sessions[j];
    if !starts(run) && !renames(session, session_name) {
        post == pre
    } else {
        &&& journaled(pre.events, post.events, "run.provider_running"@, run_payload(run_id), now)
        &&& if renames(session, session_name) {
            &&& text_of(next.provider_session_id) == session_name
            &&& next == (Session {
                provider_session_id: next.provider_session_id,
                metadata: EntityMetadata {
                    revision: (session.metadata.revision + 1) as u64,
                    updated_at: now.text,
                    ..session.metadata
                },
                ..session
            })
        } else {
            next == session
        }
        &&& post =~= StoreView {
            identity_revision: (pre.identity_revision + 1) as u64,
            identity: CatalogView {
                runs: if starts(run) {
                    pre.identity.runs.update(
                        i,
                        run_in_state(run, NormalizedRunState::Running, now),
                    )
                } else {
                    pre.identity.runs
                },
                sessions: pre.identity.sessions.update(j, next),
                ..pre.identity
            },
            events: post.events,
            ..pre
        }
    }
}

/// The states in which a run has ended.
pub open spec fn run_ended(state: NormalizedRunState) -> bool {
    ||| state == NormalizedRunState::Cancelled
    ||| state == NormalizedRunState::Failed
    ||| state == NormalizedRunState::Succeeded
    ||| state == NormalizedRunState::Blocked
    ||| state == NormalizedRunState::Uncertain
}

pub fn has_run_ended(state: NormalizedRunState) -> (r: bool)
    ensures
        r == run_ended(state),
{
    state == NormalizedRunState::Cancelled || state == NormalizedRunState::Failed || state
        == NormalizedRunState::Succeeded || state == NormalizedRunState::Blocked || state
        == NormalizedRunState::Uncertain
}

/// Why an accepted interrupt is not recorded.
pub open spec fn cancel_after_refusal(s: StoreView, run_id: RunId, catalog_fault: Option<CatalogError>) -> Option<
    Refusal,
> {
    match find(s.identity.runs, run_id) {
        None => Some(Refusal::RunNotFound),
        Some(i) => {
            let run = s.identity.runs[i];
            if run_ended(run.state) {
                if journal_room(s.events, 1) {
                    None
                } else {
                    Some(Refusal::Database)
                }
            } else if run.state == NormalizedRunState::AwaitingApproval {
                Some(Refusal::InvalidRunState(run.state.spec_label()))
            } else {
                cancelling_refusal(s, run, catalog_fault)
            }
        },
    }
}

/// Why a run cannot be entered as being cancelled.
pub open spec fn cancelling_refusal(s: StoreView, run: Run, catalog_fault: Option<CatalogError>) -> Option<
    Refusal,
> {
    if run.metadata.revision == u64::MAX {
        Some(Refusal::RevisionOverflow)
    } else if catalog_fault is Some {
        Some(Refusal::InvalidCatalog(catalog_fault->0))
    } else if bump_refusal(s.identity_revision) is Some {
        bump_refusal(s.identity_revision)
    } else if !journal_room(s.events, 1) {
        Some(Refusal::Database)
    } else {
        None
    }
}

/// Why a cancellation under a given revision is not recorded.
pub open spec fn cancel_accepted_refusal(
    s: StoreView,
    run_id: RunId,
    expected_revision: u64,
    catalog_fault: Option<CatalogError>,
) -> Option<Refusal> {
    if s.identity_revision != expected_revision {
        Some(
            Refusal::RevisionConflict { expected: expected_revision, actual: s.identity_revision },
        )
    } else {
        match find(s.identity.runs, run_id) {
            None => Some(Refusal::RunNotFound),
            Some(i) => {
                let run = s.identity.runs[i];
                if run.state != NormalizedRunState::Starting && run.state
                    != NormalizedRunState::Running && run.state != NormalizedRunState::Recovering {
                    Some(Refusal::InvalidRunState(run.state.spec_label()))
                } else {
                    cancelling_refusal(s, run, catalog_fault)
                }
            },
        }
    }
}

/// What the entry of a run as being cancelled changes, and nothing else.
pub open spec fn cancelling(pre: StoreView, post: StoreView, run_id: RunId, now: Moment) -> bool {
    let i = find(pre.identity.runs, run_id)->0;
    &&& journaled(pre.events, post.events, "run.cancel_accepted"@, run_payload(run_id), now)
    &&& post =~= StoreView {
        identity_revision: (pre.identity_revision + 1) as u64,
        identity: CatalogView {
            runs: pre.identity.runs.update(
                i,
                run_in_state(pre.identity.runs[i], NormalizedRunState::Cancelling, now),
            ),
            ..pre.identity
        },
        events: post.events,
        ..pre
    }
}

/// What an accepted interrupt changes, and nothing else: a run that has ended
/// meanwhile keeps its end.
pub open spec fn cancel_recorded(pre: StoreView, post: StoreView, run_id: RunId, now: Moment) -> bool {
    let i = find(pre.identity.runs, run_id)->0;
    if run_ended(pre.identity.runs[i].state) {
        &&& journaled(
            pre.events,
            post.events,
            "run.cancel_accepted_terminal_won"@,
            run_payload(run_id),
            now,
        )
        &&& post =~= StoreView { events: post.events, ..pre }
    } else {
        cancelling(pre, post, run_id, now)
    }
}

pub open spec fn cancel_receipt(pre: StoreView, post: StoreView, run_id: RunId) -> CancelRunReceipt {
    CancelRunReceipt {
        protocol_version: PROTOCOL_VERSION,
        run_id,
        catalog_revision: post.identity_revision,
        event_sequence: next_sequence(pre.events) as u64,
    }
}

impl Store {
    /// Whether a run can be cancelled at the provider, under the revision that
    /// the caller has seen.
    pub fn preflight_provider_cancel(&self, run_id: RunId, expected_catalog_revision: u64) -> (r: Result<
        (),
        StoreError,
    >)
        ensures
            match r {
                Ok(_) => preflight_cancel_refusal(self@, run_id, expected_catalog_revision) is None,
                Err(error) => preflight_cancel_refusal(self@, run_id, expected_catalog_revision)
                    == Some(error@),
            },
    {
        if self.identity_revision != expected_catalog_revision {
            return Err(
                StoreError::RevisionConflict {
                    expected: expected_catalog_revision,
                    actual: self.identity_revision,
                },
            );
        }
        match position(&self.identity.runs, run_id) {
            None => Err(StoreError::RunNotFound),
            Some(i) => {
                let state = self.identity.runs[i].state;
                if state != NormalizedRunState::Running && state != NormalizedRunState::Recovering {
                    return Err(StoreError::InvalidRunState(state.label()));
                }
                Ok(())
            },
        }
    }

    /// Records the first running state that a provider reports, without taking
    /// back a cancellation accepted meanwhile or any end, and the name that the
    /// provider gives the session.
    pub fn record_provider_running(
        &mut self,
        run_id: RunId,
        provider_session_id: Option<String>,
        catalog_fault: Option<CatalogError>,
        now: &Moment,
    ) -> (r: Result<u64, StoreError>)
        ensures
            match running_target(old(self)@, run_id, text_of(provider_session_id)) {
                Err(refusal) => r is Err && r->Err_0@ == refusal && *final(self) == *old(self),
                Ok((i, j)) => match running_refusal(
                    old(self)@,
                    i,
                    j,
                    text_of(provider_session_id),
                    catalog_fault,
                ) {
                    Some(refusal) => r is Err && r->Err_0@ == refusal && *final(self) == *old(self),
                    None => {
                        &&& r == Ok::<_, StoreError>(final(self)@.identity_revision)
                        &&& progress_recorded(
                            old(self)@,
                            final(self)@,
                            run_id,
                            i,
                            j,
                            text_of(provider_session_id),
                            *now,
                        )
                    },
                },
            },
    {
        if let Some(name) = &provider_session_id {
            if is_blank(name.as_str()) {
                return Err(StoreError::InvalidRunState("empty provider session id".to_owned()));
            }
        }
        if !is_current_run(&self.node_runs, run_id) {
            return Err(
                StoreError::InvalidRunState("run is not the current graph node attempt".to_owned()),
            );
        }
        let i = match position(&self.identity.runs, run_id) {
            None => {
                return Err(StoreError::RunNotFound);
            },
            Some(i) => i,
        };
        let state = self.identity.runs[i].state;
        if state != NormalizedRunState::Starting && state != NormalizedRunState::Running && state
            != NormalizedRunState::Cancelling {
            return Err(StoreError::InvalidRunState(state.label()));
        }
        let j = match position(&self.identity.sessions, self.identity.runs[i].session_id) {
            None => {
                return Err(StoreError::RunNotFound);
            },
            Some(j) => j,
        };
        let starts = state == NormalizedRunState::Starting;
        let renames = match &provider_session_id {
            None => false,
            Some(name) => match &self.identity.sessions[j].provider_session_id {
                None => true,
                Some(known) => *known != *name,
            },
        };
        if starts && self.identity.runs[i].metadata.revision == u64::MAX {
            return Err(StoreError::RevisionOverflow);
        }
        if renames && self.identity.sessions[j].metadata.revision == u64::MAX {
            return Err(StoreError::RevisionOverflow);
        }
        if !starts && !renames {
            return Ok(self.identity_revision);
        }
        if let Some(fault) = catalog_fault {
            return Err(StoreError::InvalidCatalog(fault));
        }
        let revision = match next_revision(self.identity_revision) {
            Ok(revision) => revision,
            Err(error) => {
                return Err(error);
            },
        };
        if !self.has_journal_room(1) {
            return Err(out_of_range());
        }
        let payload = Payload::new().uid("run_id", run_id).finish();
        self.insert_event("run.provider_running", payload, now);
        self.identity_revision = revision;
        if starts {
            enter_state(&mut self.identity.runs[i], NormalizedRunState::Running, now);
        }
        if renames {
            let session = &mut self.identity.sessions[j];
            session.provider_session_id = provider_session_id;
            session.metadata.revision = session.metadata.revision + 1;
            session.metadata.updated_at = now.text.clone();
        }
        Ok(revision)
    }

    fn enter_cancelling(&mut self, run_id: RunId, i: usize, catalog_fault: Option<CatalogError>, now: &Moment) -> (r:
        Result<CancelRunReceipt, StoreError>)
        requires
            find(old(self)@.identity.runs, run_id) == Some(i as int),
            i < old(self).identity.runs.len(),
        ensures
            match cancelling_refusal(old(self)@, old(self)@.identity.runs[i as int], catalog_fault) {
                Some(refusal) => r is Err && r->Err_0@ == refusal && *final(self) == *old(self),
                None => {
                    &&& r == Ok::<_, StoreError>(cancel_receipt(old(self)@, final(self)@, run_id))
                    &&& cancelling(old(self)@, final(self)@, run_id, *now)
                },
            },
    {
        if self.identity.runs[i].metadata.revision == u64::MAX {
            return Err(StoreError::RevisionOverflow);
        }
        if let Some(fault) = catalog_fault {
            return Err(StoreError::InvalidCatalog(fault));
        }
        let revision = match next_revision(self.identity_revision) {
            Ok(revision) => revision,
            Err(error) => {
                return Err(error);
            },
        };
        if !self.has_journal_room(1) {
            return Err(out_of_range());
        }
        let payload = Payload::new().uid("run_id", run_id).finish();
        let event_sequence = self.insert_event("run.cancel_accepted", payload, now);
        self.identity_revision = revision;
        enter_state(&mut self.identity.runs[i], NormalizedRunState::Cancelling, now);
        Ok(
            CancelRunReceipt {
                protocol_version: PROTOCOL_VERSION,
                run_id,
                catalog_revision: revision,
                event_sequence,
            },
        )
    }

    /// Records an interrupt that was preflighted and then accepted by the exact
    /// provider controller. It reads the state afresh, so that unrelated
    /// completions cannot turn an accepted interrupt into a false conflict, and
    /// it never takes back an end.
    pub fn record_provider_cancel_after_preflight(
        &mut self,
        run_id: RunId,
        catalog_fault: Option<CatalogError>,
        now: &Moment,
    ) -> (r: Result<CancelRunReceipt, StoreError>)
        ensures
            match cancel_after_refusal(old(self)@, run_id, catalog_fault) {
                Some(refusal) => r is Err && r->Err_0@ == refusal && *final(self) == *old(self),
                None => {
                    &&& r == Ok::<_, StoreError>(cancel_receipt(old(self)@, final(self)@, run_id))
                    &&& cancel_recorded(old(self)@, final(self)@, run_id, *now)
                },
            },
    {
        let i = match position(&self.identity.runs, run_id) {
            None => {
                return Err(StoreError::RunNotFound);
            },
            Some(i) => i,
        };
        let state = self.identity.runs[i].state;
        if has_run_ended(state) {
            if !self.has_journal_room(1) {
                return Err(out_of_range());
            }
            let payload = Payload::new().uid("run_id", run_id).finish();
            let event_sequence = self.insert_event(
                "run.cancel_accepted_terminal_won",
                payload,
                now,
            );
            return Ok(
                CancelRunReceipt {
                    protocol_version: PROTOCOL_VERSION,
                    run_id,
                    catalog_revision: self.identity_revision,
                    event_sequence,
                },
            );
        }
        if state == NormalizedRunState::AwaitingApproval {
            return Err(StoreError::InvalidRunState(state.label()));
        }
        self.enter_cancelling(run_id, i, catalog_fault, now)
    }

    /// Records a cancellation, under the revision that the caller has seen, only
    /// after the daemon-owned provider controller accepted the interrupt.
    pub fn record_provider_cancel_accepted(
        &mut self,
        run_id: RunId,
        expected_catalog_revision: u64,
        catalog_fault: Option<CatalogError>,
        now: &Moment,
    ) -> (r: Result<CancelRunReceipt, StoreError>)
        ensures
            match cancel_accepted_refusal(
                old(self)@,
                run_id,
                expected_catalog_revision,
                catalog_fault,
            ) {
                Some(refusal) => r is Err && r->Err_0@ == refusal && *final(self) == *old(self),
                None => {
                    &&& r == Ok::<_, StoreError>(cancel_receipt(old(self)@, final(self)@, run_id))
                    &&& cancelling(old(self)@, final(self)@, run_id, *now)
                },
            },
    {
        if self.identity_revision != expected_catalog_revision {
            return Err(
                StoreError::RevisionConflict {
                    expected: expected_catalog_revision,
                    actual: self.identity_revision,
                },
            );
        }
        let i = match position(&self.identity.runs, run_id) {
            None => {
                return Err(StoreError::RunNotFound);
            },
            Some(i) => i,
        };
        let state = self.identity.runs[i].state;
        if state != NormalizedRunState::Starting && state != NormalizedRunState::Running && state
            != NormalizedRunState::Recovering {
            return Err(StoreError::InvalidRunState(state.label()));
        }
        self.enter_cancelling(run_id, i, catalog_fault, now)
    }
}

fn enter_state(run: &mut Run, state: NormalizedRunState, now: &Moment)
    requires
        old(run).metadata.revision < u64::MAX,
    ensures
        *final(run) == run_in_state(*old(run), state, *now),
{
    run.state = state;
    run.metadata.revision = run.metadata.revision + 1;
    run.metadata.updated_at = now.text.clone();
}

} // verus!
