use crate::attempts::{check_graphs, graphs_refusal};
use crate::error::{CatalogError, Refusal, StoreError};
use crate::identity::{CatalogView, IdentityCatalog, Moment, NormalizedRunState, Run};
use crate::json::{fields, json_uid, object, Payload};
use crate::m3::{m3_is_unconfigured, unconfigured, M3Catalog, M3View, PetProfile};
use crate::protocol::{
    CatalogReceipt, CatalogSnapshot, M3CatalogSnapshot, PrepareMvpCommand, PrepareMvpReceipt,
    ReplaceCatalogCommand, ReplaceM3CatalogCommand, PROTOCOL_VERSION,
};
use crate::store::{
    bump_refusal, journal_room, journaled, next_revision, next_sequence, out_of_range, Store,
    StoreView,
};
use crate::text::decimal;
use crate::uid::{find, position, MeetingId, ProjectId};
use vstd::prelude::*;

verus! {

/// Why a new catalog may not take the place of the old one as far as an old run
/// goes: the run and its session belong to the daemon and stay as they are.
pub open spec fn run_refusal(previous: CatalogView, next: CatalogView, run: Run) -> Option<Refusal> {
    match find(previous.sessions, run.session_id) {
        None => Some(Refusal::RunNotFound),
        Some(j) => {
            let session = previous.sessions[j];
            let i = find(next.runs, run.metadata.id);
            let k = find(next.sessions, session.metadata.id);
            if i is None || next.runs[i->0]@ != run@ || k is None || next.sessions[k->0]@
                != session@ {
                Some(Refusal::InvalidRunState("daemon-owned run or session cannot be replaced"@))
            } else {
                None
            }
        },
    }
}

/// The same, for the first old run, from the `from`-th on, that objects.
pub open spec fn runs_refusal(previous: CatalogView, next: CatalogView, from: int) -> Option<Refusal>
    decreases previous.runs.len() - from,
{
    if from < 0 || from >= previous.runs.len() {
        None
    } else {
        match run_refusal(previous, next, previous.runs[from]) {
            Some(refusal) => Some(refusal),
            None => runs_refusal(previous, next, from + 1),
        }
    }
}

/// A run that a catalog may bring along only if the daemon knows it already.
pub open spec fn introduces_active(previous: CatalogView, run: Run) -> bool {
    &&& find(previous.runs, run.metadata.id) is None
    &&& run.state != NormalizedRunState::Starting || run.started_at is Some
}

pub open spec fn any_introduced(previous: CatalogView, next: CatalogView) -> bool {
    exists|i: int| 0 <= i < next.runs.len() && introduces_active(previous, #[trigger] next.runs[i])
}

/// Why a catalog is not replaced.
pub open spec fn replace_refusal(
    s: StoreView,
    expected_revision: u64,
    next: CatalogView,
    catalog_fault: Option<CatalogError>,
    m3_fault: Option<String>,
) -> Option<Refusal> {
    if catalog_fault is Some {
        Some(Refusal::InvalidCatalog(catalog_fault->0))
    } else if s.identity_revision != expected_revision {
        Some(
            Refusal::RevisionConflict { expected: expected_revision, actual: s.identity_revision },
        )
    } else if runs_refusal(s.identity, next, 0) is Some {
        runs_refusal(s.identity, next, 0)
    } else if any_introduced(s.identity, next) {
        Some(Refusal::InvalidRunState("catalog cannot introduce an active provider run"@))
    } else if graphs_refusal(s.graphs, s.outputs) is Some {
        graphs_refusal(s.graphs, s.outputs)
    } else if m3_fault is Some {
        Some(Refusal::InvalidM3(m3_fault->0@))
    } else if bump_refusal(s.identity_revision) is Some {
        bump_refusal(s.identity_revision)
    } else if !journal_room(s.events, 1) {
        Some(Refusal::Database)
    } else {
        None
    }
}

pub open spec fn replaced_payload(revision: int, next: CatalogView) -> Seq<char> {
    object(
        fields().push(("agent_providers"@, decimal(next.agent_providers.len()))).push(
            ("projects"@, decimal(next.projects.len())),
        ).push(("revision"@, decimal(revision as nat))).push(
            ("runs"@, decimal(next.runs.len())),
        ).push(("sessions"@, decimal(next.sessions.len()))),
    )
}

/// What the replacement of the catalog changes, and nothing else.
pub open spec fn catalog_replaced(pre: StoreView, post: StoreView, next: CatalogView, now: Moment) -> bool {
    &&& journaled(
        pre.events,
        post.events,
        "catalog.replaced"@,
        replaced_payload(pre.identity_revision + 1, next),
        now,
    )
    &&& post =~= StoreView {
        identity_revision: (pre.identity_revision + 1) as u64,
        identity: next,
        events: post.events,
        ..pre
    }
}

/// The receipt for the replacement of a catalog.
pub open spec fn replaced_receipt(pre: StoreView, revision: u64) -> CatalogReceipt {
    CatalogReceipt {
        protocol_version: PROTOCOL_VERSION,
        revision: (revision + 1) as u64,
        event_sequence: next_sequence(pre.events) as u64,
    }
}

fn check_run(previous: &IdentityCatalog, next: &IdentityCatalog, run: &Run) -> (r: Result<(), StoreError>)
    ensures
        match r {
            Ok(_) => run_refusal(previous@, next@, *run) is None,
            Err(error) => run_refusal(previous@, next@, *run) == Some(error@),
        },
{
    let session = match position(&previous.sessions, run.session_id) {
        None => {
            return Err(StoreError::RunNotFound);
        },
        Some(j) => &previous.sessions[j],
    };
    let run_kept = match position(&next.runs, run.metadata.id) {
        None => false,
        Some(i) => next.runs[i].same(run),
    };
    let session_kept = match position(&next.sessions, session.metadata.id) {
        None => false,
        Some(k) => next.sessions[k].same(session),
    };
    if !run_kept || !session_kept {
        return Err(
            StoreError::InvalidRunState("daemon-owned run or session cannot be replaced".to_owned()),
        );
    }
    Ok(())
}

fn check_runs(previous: &IdentityCatalog, next: &IdentityCatalog) -> (r: Result<(), StoreError>)
    ensures
        match r {
            Ok(_) => runs_refusal(previous@, next@, 0) is None,
            Err(error) => runs_refusal(previous@, next@, 0) == Some(error@),
        },
{
    let mut i: usize = 0;
    while i < previous.runs.len()
        invariant
            i <= previous.runs@.len(),
            runs_refusal(previous@, next@, 0) == runs_refusal(previous@, next@, i as int),
        decreases previous.runs@.len() - i,
    {
        match check_run(previous, next, &previous.runs[i]) {
            Ok(_) => {},
            Err(error) => {
                return Err(error);
            },
        }
        i += 1;
    }
    Ok(())
}

fn introduces(previous: &IdentityCatalog, next: &IdentityCatalog) -> (r: bool)
    ensures
        r == any_introduced(previous@, next@),
{
    let mut i: usize = 0;
    while i < next.runs.len()
        invariant
            i <= next.runs@.len(),
            forall|j: int|
                0 <= j < i ==> !introduces_active(previous@, #[trigger] next@.runs[j]),
        decreases next.runs@.len() - i,
    {
        let run = &next.runs[i];
        if position(&previous.runs, run.metadata.id).is_none() && (run.state
            != NormalizedRunState::Starting || run.started_at.is_some()) {
            assert(introduces_active(previous@, next@.runs[i as int]));
            return true;
        }
        i += 1;
    }
    false
}

/// What the office rules propose for a first project.
#[derive(Debug)]
pub struct MvpDraft {
    pub identity: IdentityCatalog,
    pub m3: M3Catalog,
    pub project_id: ProjectId,
    pub meeting_id: MeetingId,
}

/// A catalog with nothing in it.
pub open spec fn no_identities(identity: CatalogView) -> bool {
    &&& identity.credential_references.len() == 0
    &&& identity.agent_providers.len() == 0
    &&& identity.model_providers.len() == 0
    &&& identity.accounts.len() == 0
    &&& identity.models.len() == 0
    &&& identity.agent_instances.len() == 0
    &&& identity.projects.len() == 0
    &&& identity.roles.len() == 0
    &&& identity.sessions.len() == 0
    &&& identity.runs.len() == 0
}

fn is_empty_catalog(identity: &IdentityCatalog) -> (r: bool)
    ensures
        r == no_identities(identity@),
{
    identity.credential_references.len() == 0 && identity.agent_providers.len() == 0
        && identity.model_providers.len() == 0 && identity.accounts.len() == 0
        && identity.models.len() == 0 && identity.agent_instances.len() == 0
        && identity.projects.len() == 0 && identity.roles.len() == 0 && identity.sessions.len()
        == 0 && identity.runs.len() == 0
}

/// Why a first project is not set up.
pub open spec fn prepare_refusal(
    s: StoreView,
    c: PrepareMvpCommand,
    draft: Result<MvpDraft, String>,
    builtin: PetProfile,
) -> Option<Refusal> {
    if draft is Err {
        Some(Refusal::InvalidMvp(draft->Err_0@))
    } else if !no_identities(s.identity) || !unconfigured(s.m3, builtin) {
        Some(Refusal::InvalidMvp("MVP initializer refuses to replace existing project data"@))
    } else if s.identity_revision != c.expected_catalog_revision {
        Some(
            Refusal::RevisionConflict {
                expected: c.expected_catalog_revision,
                actual: s.identity_revision,
            },
        )
    } else if s.m3_revision != c.expected_m3_revision {
        Some(
            Refusal::RevisionConflict { expected: c.expected_m3_revision, actual: s.m3_revision },
        )
    } else if bump_refusal(s.identity_revision) is Some {
        bump_refusal(s.identity_revision)
    } else if bump_refusal(s.m3_revision) is Some {
        bump_refusal(s.m3_revision)
    } else if !journal_room(s.events, 1) {
        Some(Refusal::Database)
    } else {
        None
    }
}

/// What the setup of a first project changes, and nothing else. A pet that the
/// office has already is kept.
pub open spec fn mvp_prepared(pre: StoreView, post: StoreView, draft: MvpDraft, now: Moment) -> bool {
    &&& journaled(
        pre.events,
        post.events,
        "mvp.prepared"@,
        object(
            fields().push(("meeting_id"@, json_uid(draft.meeting_id))).push(
                ("project_id"@, json_uid(draft.project_id)),
            ),
        ),
        now,
    )
    &&& post =~= StoreView {
        identity_revision: (pre.identity_revision + 1) as u64,
        identity: draft.identity@,
        m3_revision: (pre.m3_revision + 1) as u64,
        m3: M3View {
            pet_profiles: if pre.m3.pet_profiles.len() == 0 {
                draft.m3@.pet_profiles
            } else {
                pre.m3.pet_profiles
            },
            ..draft.m3@
        },
        events: post.events,
        ..pre
    }
}

/// Why the office catalog is not replaced.
pub open spec fn replace_m3_refusal(s: StoreView, expected_revision: u64, m3_fault: Option<String>) -> Option<
    Refusal,
> {
    if m3_fault is Some {
        Some(Refusal::InvalidM3(m3_fault->0@))
    } else if s.m3_revision != expected_revision {
        Some(Refusal::RevisionConflict { expected: expected_revision, actual: s.m3_revision })
    } else if bump_refusal(s.m3_revision) is Some {
        bump_refusal(s.m3_revision)
    } else if !journal_room(s.events, 1) {
        Some(Refusal::Database)
    } else {
        None
    }
}

/// What the replacement of the office catalog changes, and nothing else.
pub open spec fn m3_replaced(pre: StoreView, post: StoreView, next: M3View, now: Moment) -> bool {
    &&& journaled(
        pre.events,
        post.events,
        "m3.catalog_replaced"@,
        object(
            fields().push(("documents"@, decimal(next.documents.len()))).push(
                ("meetings"@, decimal(next.meetings.len())),
            ).push(("pet_profiles"@, decimal(next.pet_profiles.len()))).push(
                ("revision"@, decimal((pre.m3_revision + 1) as nat)),
            ),
        ),
        now,
    )
    &&& post =~= StoreView {
        m3_revision: (pre.m3_revision + 1) as u64,
        m3: next,
        events: post.events,
        ..pre
    }
}

impl Store {
    /// The identity catalog, unless the identity rules find a fault in it.
    pub fn catalog(&self, fault: Option<CatalogError>) -> (r: Result<CatalogSnapshot<'_>, StoreError>)
        ensures
            match fault {
                Some(fault) => r is Err && r->Err_0@ == Refusal::InvalidCatalog(fault),
                None => r == Ok::<_, StoreError>(
                    (CatalogSnapshot {
                        protocol_version: PROTOCOL_VERSION,
                        revision: self@.identity_revision,
                        catalog: &self.identity,
                    }),
                ),
            },
    {
        match fault {
            Some(fault) => Err(StoreError::InvalidCatalog(fault)),
            None => Ok(
                CatalogSnapshot {
                    protocol_version: PROTOCOL_VERSION,
                    revision: self.identity_revision,
                    catalog: &self.identity,
                },
            ),
        }
    }

    /// The office catalog, unless the office rules find a fault in it.
    pub fn m3_catalog(&self, fault: Option<String>) -> (r: Result<M3CatalogSnapshot<'_>, StoreError>)
        ensures
            match fault {
                Some(fault) => r is Err && r->Err_0@ == Refusal::InvalidM3(fault@),
                None => r == Ok::<_, StoreError>(
                    (M3CatalogSnapshot {
                        protocol_version: PROTOCOL_VERSION,
                        revision: self@.m3_revision,
                        catalog: &self.m3,
                    }),
                ),
            },
    {
        match fault {
            Some(fault) => Err(StoreError::InvalidM3(fault)),
            None => Ok(
                M3CatalogSnapshot {
                    protocol_version: PROTOCOL_VERSION,
                    revision: self.m3_revision,
                    catalog: &self.m3,
                },
            ),
        }
    }

    /// Replaces the identity catalog. Generic editing cannot rewrite the runs and
    /// sessions that the daemon owns; dedicated operations keep that authority.
    pub fn replace_catalog(
        &mut self,
        command: ReplaceCatalogCommand,
        catalog_fault: Option<CatalogError>,
        m3_fault: Option<String>,
        now: &Moment,
    ) -> (r: Result<CatalogReceipt, StoreError>)
        ensures
            match replace_refusal(
                old(self)@,
                command.expected_revision,
                command.catalog@,
                catalog_fault,
                m3_fault,
            ) {
                Some(refusal) => r is Err && r->Err_0@ == refusal && *final(self) == *old(self),
                None => {
                    &&& r == Ok::<_, StoreError>(
                        replaced_receipt(old(self)@, old(self)@.identity_revision),
                    )
                    &&& catalog_replaced(old(self)@, final(self)@, command.catalog@, *now)
                },
            },
    {
        if let Some(fault) = catalog_fault {
            return Err(StoreError::InvalidCatalog(fault));
        }
        if self.identity_revision != command.expected_revision {
            return Err(
                StoreError::RevisionConflict {
                    expected: command.expected_revision,
                    actual: self.identity_revision,
                },
            );
        }
        match check_runs(&self.identity, &command.catalog) {
            Ok(_) => {},
            Err(error) => {
                return Err(error);
            },
        }
        if introduces(&self.identity, &command.catalog) {
            return Err(
                StoreError::InvalidRunState(
                    "catalog cannot introduce an active provider run".to_owned(),
                ),
            );
        }
        match check_graphs(&self.graphs, &self.outputs) {
            Ok(_) => {},
            Err(error) => {
                return Err(error);
            },
        }
        if let Some(fault) = m3_fault {
            return Err(StoreError::InvalidM3(fault));
        }
        let revision = match next_revision(self.identity_revision) {
            Ok(revision) => revision,
            Err(error) => {
                return Err(error);
            },
        };
        if !self.has_journal_room(1) {
            return Err(out_of_range());
        }
        let catalog = command.catalog;
        let payload = Payload::new().number(
            "agent_providers",
            catalog.agent_providers.len() as u64,
        ).number("projects", catalog.projects.len() as u64).number("revision", revision).number(
            "runs",
            catalog.runs.len() as u64,
        ).number("sessions", catalog.sessions.len() as u64).finish();
        let event_sequence = self.insert_event("catalog.replaced", payload, now);
        self.identity_revision = revision;
        self.identity = catalog;
        Ok(CatalogReceipt { protocol_version: PROTOCOL_VERSION, revision, event_sequence })
    }

    /// Replaces the office catalog.
    pub fn replace_m3_catalog(
        &mut self,
        command: ReplaceM3CatalogCommand,
        m3_fault: Option<String>,
        now: &Moment,
    ) -> (r: Result<CatalogReceipt, StoreError>)
        ensures
            match replace_m3_refusal(old(self)@, command.expected_revision, m3_fault) {
                Some(refusal) => r is Err && r->Err_0@ == refusal && *final(self) == *old(self),
                None => {
                    &&& r == Ok::<_, StoreError>(
                        replaced_receipt(old(self)@, old(self)@.m3_revision),
                    )
                    &&& m3_replaced(old(self)@, final(self)@, command.catalog@, *now)
                },
            },
    {
        if let Some(fault) = m3_fault {
            return Err(StoreError::InvalidM3(fault));
        }
        if self.m3_revision != command.expected_revision {
            return Err(
                StoreError::RevisionConflict {
                    expected: command.expected_revision,
                    actual: self.m3_revision,
                },
            );
        }
        let revision = match next_revision(self.m3_revision) {
            Ok(revision) => revision,
            Err(error) => {
                return Err(error);
            },
        };
        if !self.has_journal_room(1) {
            return Err(out_of_range());
        }
        let catalog = command.catalog;
        let payload = Payload::new().number(
            "documents",
            catalog.deliverables.documents.len() as u64,
        ).number("meetings", catalog.meetings.meetings.len() as u64).number(
            "pet_profiles",
            catalog.office.pet_profiles.len() as u64,
        ).number("revision", revision).finish();
        let event_sequence = self.insert_event("m3.catalog_replaced", payload, now);
        self.m3_revision = revision;
        self.m3 = catalog;
        Ok(CatalogReceipt { protocol_version: PROTOCOL_VERSION, revision, event_sequence })
    }

    /// Sets up a first project, on a workstation that holds no project data.
    pub fn prepare_mvp(
        &mut self,
        command: PrepareMvpCommand,
        draft: Result<MvpDraft, String>,
        builtin: &PetProfile,
        now: &Moment,
    ) -> (r: Result<PrepareMvpReceipt, StoreError>)
        ensures
            match prepare_refusal(old(self)@, command, draft, *builtin) {
                Some(refusal) => r is Err && r->Err_0@ == refusal && *final(self) == *old(self),
                None => {
                    &&& r == Ok::<_, StoreError>(
                        (PrepareMvpReceipt {
                            protocol_version: PROTOCOL_VERSION,
                            project_id: draft->Ok_0.project_id,
                            meeting_id: draft->Ok_0.meeting_id,
                            catalog_revision: (old(self)@.identity_revision + 1) as u64,
                            m3_revision: (old(self)@.m3_revision + 1) as u64,
                            event_sequence: next_sequence(old(self)@.events) as u64,
                        }),
                    )
                    &&& mvp_prepared(old(self)@, final(self)@, draft->Ok_0, *now)
                },
            },
    {
        let mut draft = match draft {
            Ok(draft) => draft,
            Err(text) => {
                return Err(StoreError::InvalidMvp(text));
            },
        };
        if !is_empty_catalog(&self.identity) || !m3_is_unconfigured(&self.m3, builtin) {
            return Err(
                StoreError::InvalidMvp(
                    "MVP initializer refuses to replace existing project data".to_owned(),
                ),
            );
        }
        if self.identity_revision != command.expected_catalog_revision {
            return Err(
                StoreError::RevisionConflict {
                    expected: command.expected_catalog_revision,
                    actual: self.identity_revision,
                },
            );
        }
        if self.m3_revision != command.expected_m3_revision {
            return Err(
                StoreError::RevisionConflict {
                    expected: command.expected_m3_revision,
                    actual: self.m3_revision,
                },
            );
        }
        let catalog_revision = match next_revision(self.identity_revision) {
            Ok(revision) => revision,
            Err(error) => {
                return Err(error);
            },
        };
        let m3_revision = match next_revision(self.m3_revision) {
            Ok(revision) => revision,
            Err(error) => {
                return Err(error);
            },
        };
        if !self.has_journal_room(1) {
            return Err(out_of_range());
        }
        let payload = Payload::new().uid("meeting_id", draft.meeting_id).uid(
            "project_id",
            draft.project_id,
        ).finish();
        let event_sequence = self.insert_event("mvp.prepared", payload, now);
        self.identity_revision = catalog_revision;
        self.m3_revision = m3_revision;
        if self.m3.office.pet_profiles.len() != 0 {
            core::mem::swap(&mut self.m3.office.pet_profiles, &mut draft.m3.office.pet_profiles);
        }
        self.identity = draft.identity;
        self.m3 = draft.m3;
        Ok(
            PrepareMvpReceipt {
                protocol_version: PROTOCOL_VERSION,
                project_id: draft.project_id,
                meeting_id: draft.meeting_id,
                catalog_revision,
                m3_revision,
                event_sequence,
            },
        )
    }
}

} // verus!
