//! The catalogs: how they are read, replaced and first set up.
use crate::catalogs::MvpDraft;
use crate::error::{CatalogError, StoreError};
use crate::identity::{IdentityCatalog, Moment, NormalizedRunState, Run};
use crate::json::{fields, json_uid};
use crate::m3::{M3Catalog, PetProfile};
use crate::promises::{launches_kept, told};
use crate::protocol::{
    CatalogReceipt, CatalogSnapshot, M3CatalogSnapshot, PrepareMvpCommand, PrepareMvpReceipt,
    ReplaceCatalogCommand, ReplaceM3CatalogCommand,
};
use crate::store::Store;
use crate::text::decimal;
use crate::uid::{find, lemma_find};
use vstd::prelude::*;

verus! {

/// Two catalogs with the same entries, table by table.
pub open spec fn same_entries(a: IdentityCatalog, b: IdentityCatalog) -> bool {
    &&& a.credential_references@ == b.credential_references@
    &&& a.agent_providers@ == b.agent_providers@
    &&& a.model_providers@ == b.model_providers@
    &&& a.accounts@ == b.accounts@
    &&& a.models@ == b.models@
    &&& a.agent_instances@ == b.agent_instances@
    &&& a.projects@ == b.projects@
    &&& a.roles@ == b.roles@
    &&& a.sessions@ == b.sessions@
    &&& a.runs@ == b.runs@
}

/// Two work catalogs with the same entries, table by table.
pub open spec fn same_work(a: M3Catalog, b: M3Catalog) -> bool {
    &&& a.office.pet_profiles@ == b.office.pet_profiles@
    &&& same_work_but_pets(a, b)
}

/// Two work catalogs whose entries differ at most in the pets' profiles.
pub open spec fn same_work_but_pets(a: M3Catalog, b: M3Catalog) -> bool {
    &&& a.office.pet_assignments@ == b.office.pet_assignments@
    &&& a.office.rooms@ == b.office.rooms@
    &&& a.meetings.meetings@ == b.meetings.meetings@
    &&& a.meetings.decision_baselines@ == b.meetings.decision_baselines@
    &&& a.deliverables.documents@ == b.deliverables.documents@
    &&& a.deliverables.knowledge_deliveries@ == b.deliverables.knowledge_deliveries@
    &&& a.deliverables.costs@ == b.deliverables.costs@
}

/// The catalog is shown as it is, at its own revision.
pub proof fn law_catalog_is_shown(
    store: &Store,
    fault: Option<CatalogError>,
    r: Result<CatalogSnapshot<'_>, StoreError>,
)
    requires
        call_ensures(Store::catalog, (store, fault), r),
    ensures
        r is Ok <==> fault is None,
        r is Ok ==> r->Ok_0.protocol_version == 1 && r->Ok_0.revision == store.identity_revision
            && *r->Ok_0.catalog == store.identity,
        r is Err ==> r->Err_0 is InvalidCatalog,
{
}

/// The work catalog is shown as it is, at its own revision.
pub proof fn law_work_catalog_is_shown(
    store: &Store,
    fault: Option<String>,
    r: Result<M3CatalogSnapshot<'_>, StoreError>,
)
    requires
        call_ensures(Store::m3_catalog, (store, fault), r),
    ensures
        r is Ok <==> fault is None,
        r is Ok ==> r->Ok_0.protocol_version == 1 && r->Ok_0.revision == store.m3_revision
            && *r->Ok_0.catalog == store.m3,
        r is Err ==> r->Err_0 is InvalidM3,
{
}

/// A catalog is replaced as a whole, at the revision that the caller knows; the
/// work catalog, the executions and the launches stay.
pub proof fn law_catalog_is_replaced_as_given(
    store: &mut Store,
    command: ReplaceCatalogCommand,
    catalog_fault: Option<CatalogError>,
    m3_fault: Option<String>,
    now: &Moment,
    r: Result<CatalogReceipt, StoreError>,
)
    requires
        call_ensures(
            Store::replace_catalog,
            (store, command, catalog_fault, m3_fault, now),
            r,
        ),
    ensures
        r is Err ==> *final(store) == *old(store),
        r is Ok ==> {
            &&& catalog_fault is None
            &&& m3_fault is None
            &&& old(store).identity_revision == command.expected_revision
            &&& same_entries(final(store).identity, command.catalog)
            &&& final(store).identity_revision == old(store).identity_revision + 1
            &&& r->Ok_0.protocol_version == 1
            &&& r->Ok_0.revision == final(store).identity_revision
            &&& r->Ok_0.event_sequence == final(store).events@.last().sequence
            &&& told(
                old(store).events@,
                final(store).events@,
                "catalog.replaced"@,
                fields().push(
                    ("agent_providers"@, decimal(command.catalog.agent_providers@.len())),
                ).push(("projects"@, decimal(command.catalog.projects@.len()))).push(
                    ("revision"@, decimal((old(store).identity_revision + 1) as nat)),
                ).push(("runs"@, decimal(command.catalog.runs@.len()))).push(
                    ("sessions"@, decimal(command.catalog.sessions@.len())),
                ),
                *now,
            )
            &&& final(store).m3_revision == old(store).m3_revision
            &&& same_work(final(store).m3, old(store).m3)
            &&& final(store).graphs@ == old(store).graphs@
            &&& final(store).node_runs@ == old(store).node_runs@
            &&& final(store).outputs@ == old(store).outputs@
            &&& final(store).revision == old(store).revision
            &&& final(store).lifecycle@ == old(store).lifecycle@
            &&& launches_kept(*old(store), *final(store))
        },
        catalog_fault is None && old(store).identity_revision != command.expected_revision
            ==> r->Err_0 is RevisionConflict,
{
    if r is Ok {
        assert(final(store)@.identity == final(store).identity@);
        assert(final(store)@.m3 == final(store).m3@);
    }
}

/// A run with the same identifier, session, model, state and times.
pub open spec fn same_run(a: Run, b: Run) -> bool {
    &&& a.metadata.id == b.metadata.id
    &&& a.metadata.revision == b.metadata.revision
    &&& a.session_id == b.session_id
    &&& a.model_id == b.model_id
    &&& a.state == b.state
    &&& a.started_at is Some <==> b.started_at is Some
    &&& a.started_at is Some ==> a.started_at->0@ == b.started_at->0@
    &&& a.finished_at is Some <==> b.finished_at is Some
    &&& a.finished_at is Some ==> a.finished_at->0@ == b.finished_at->0@
}

/// Replacing a catalog neither drops nor changes a run or its session, and brings
/// in no run that has begun.
pub proof fn law_replacing_keeps_the_runs(
    store: &mut Store,
    command: ReplaceCatalogCommand,
    catalog_fault: Option<CatalogError>,
    m3_fault: Option<String>,
    now: &Moment,
    r: Result<CatalogReceipt, StoreError>,
    i: int,
)
    requires
        call_ensures(
            Store::replace_catalog,
            (store, command, catalog_fault, m3_fault, now),
            r,
        ),
        r is Ok,
    ensures
        0 <= i < old(store).identity.runs@.len() ==> exists|j: int|
            0 <= j < final(store).identity.runs@.len() && same_run(
                #[trigger] final(store).identity.runs@[j],
                old(store).identity.runs@[i],
            ),
        0 <= i < old(store).identity.runs@.len() ==> exists|j: int, k: int|
            #![trigger old(store).identity.sessions@[j], final(store).identity.sessions@[k]]
            {
                &&& 0 <= j < old(store).identity.sessions@.len()
                &&& old(store).identity.sessions@[j].metadata.id
                    == old(store).identity.runs@[i].session_id
                &&& 0 <= k < final(store).identity.sessions@.len()
                &&& final(store).identity.sessions@[k].metadata.id
                    == old(store).identity.runs@[i].session_id
                &&& final(store).identity.sessions@[k].agent_instance_id
                    == old(store).identity.sessions@[j].agent_instance_id
                &&& final(store).identity.sessions@[k].project_id
                    == old(store).identity.sessions@[j].project_id
            },
        (0 <= i < final(store).identity.runs@.len() && forall|k: int|
            0 <= k < old(store).identity.runs@.len() ==> (
            #[trigger] old(store).identity.runs@[k]).metadata.id
                != final(store).identity.runs@[i].metadata.id) ==> final(
            store).identity.runs@[i].state == NormalizedRunState::Starting && final(
            store).identity.runs@[i].started_at is None,
{
    let s = old(store)@;
    let next = command.catalog@;
    assert(final(store)@.identity == final(store).identity@);
    assert(s.identity == old(store).identity@);
    assert(final(store).identity.runs@ == next.runs);
    assert(final(store).identity.sessions@ == next.sessions);
    if 0 <= i < old(store).identity.runs@.len() {
        lemma_no_run_refused(s.identity, next, 0, i);
        let run = s.identity.runs[i];
        lemma_find(s.identity.sessions, run.session_id);
        let j = find(s.identity.sessions, run.session_id)->0;
        lemma_find(next.runs, run.metadata.id);
        lemma_find(next.sessions, s.identity.sessions[j].metadata.id);
        let n = find(next.runs, run.metadata.id)->0;
        let k = find(next.sessions, s.identity.sessions[j].metadata.id)->0;
        assert(next.runs[n]@ == run@);
        assert(same_run(final(store).identity.runs@[n], run));
        assert(next.sessions[k]@ == s.identity.sessions[j]@);
        assert(old(store).identity.sessions@[j].metadata.id == run.session_id);
        assert(final(store).identity.sessions@[k].metadata.id == run.session_id);
    }
    if 0 <= i < final(store).identity.runs@.len() {
        lemma_find(s.identity.runs, final(store).identity.runs@[i].metadata.id);
        assert(!crate::catalogs::introduces_active(s.identity, next.runs[i]));
        if forall|k: int|
            0 <= k < old(store).identity.runs@.len() ==> (
            #[trigger] old(store).identity.runs@[k]).metadata.id
                != final(store).identity.runs@[i].metadata.id {
            if find(s.identity.runs, final(store).identity.runs@[i].metadata.id) is Some {
                let k = find(s.identity.runs, final(store).identity.runs@[i].metadata.id)->0;
                assert(old(store).identity.runs@[k].metadata.id
                    == final(store).identity.runs@[i].metadata.id);
            }
        }
    }
}

proof fn lemma_no_run_refused(
    previous: crate::identity::CatalogView,
    next: crate::identity::CatalogView,
    from: int,
    i: int,
)
    requires
        0 <= from <= i < previous.runs.len(),
        crate::catalogs::runs_refusal(previous, next, from) is None,
    ensures
        crate::catalogs::run_refusal(previous, next, previous.runs[i]) is None,
    decreases i - from,
{
    if from < i {
        lemma_no_run_refused(previous, next, from + 1, i);
    }
}

/// The work catalog is replaced as a whole, at the revision that the caller
/// knows; the runs and the launches stay.
pub proof fn law_work_catalog_is_replaced_as_given(
    store: &mut Store,
    command: ReplaceM3CatalogCommand,
    m3_fault: Option<String>,
    now: &Moment,
    r: Result<CatalogReceipt, StoreError>,
)
    requires
        call_ensures(Store::replace_m3_catalog, (store, command, m3_fault, now), r),
    ensures
        r is Err ==> *final(store) == *old(store),
        r is Ok <==> m3_fault is None && old(store).m3_revision == command.expected_revision
            && old(store).m3_revision < 0x7fff_ffff_ffff_ffff && (old(store).events@.len() > 0
            ==> old(store).events@.last().sequence < 0x7fff_ffff_ffff_ffff),
        r is Ok ==> {
            &&& same_work(final(store).m3, command.catalog)
            &&& final(store).m3_revision == old(store).m3_revision + 1
            &&& r->Ok_0.protocol_version == 1
            &&& r->Ok_0.revision == final(store).m3_revision
            &&& r->Ok_0.event_sequence == final(store).events@.last().sequence
            &&& told(
                old(store).events@,
                final(store).events@,
                "m3.catalog_replaced"@,
                fields().push(
                    ("documents"@, decimal(command.catalog.deliverables.documents@.len())),
                ).push(("meetings"@, decimal(command.catalog.meetings.meetings@.len()))).push(
                    ("pet_profiles"@, decimal(command.catalog.office.pet_profiles@.len())),
                ).push(("revision"@, decimal((old(store).m3_revision + 1) as nat))),
                *now,
            )
            &&& crate::promises::runs_kept(*old(store), *final(store))
            &&& same_entries(final(store).identity, old(store).identity)
            &&& final(store).graphs@ == old(store).graphs@
        },
{
    if r is Ok {
        assert(final(store)@.identity == final(store).identity@);
        assert(final(store)@.m3 == final(store).m3@);
    }
}

/// A project is set up only where there is none, and then as it was drafted; a
/// pet that was there stays.
pub proof fn law_project_is_set_up_once(
    store: &mut Store,
    command: PrepareMvpCommand,
    draft: Result<MvpDraft, String>,
    builtin: &PetProfile,
    now: &Moment,
    r: Result<PrepareMvpReceipt, StoreError>,
)
    requires
        call_ensures(Store::prepare_mvp, (store, command, draft, builtin, now), r),
    ensures
        r is Err ==> *final(store) == *old(store),
        r is Ok ==> {
            &&& draft is Ok
            &&& old(store).identity_revision == command.expected_catalog_revision
            &&& old(store).m3_revision == command.expected_m3_revision
            &&& old(store).identity.projects@.len() == 0
            &&& old(store).identity.agent_instances@.len() == 0
            &&& old(store).identity.sessions@.len() == 0
            &&& old(store).identity.runs@.len() == 0
            &&& old(store).m3.office.pet_assignments@.len() == 0
            &&& old(store).m3.office.pet_profiles@.len() <= 1
            &&& old(store).m3.meetings.meetings@.len() == 0
            &&& old(store).m3.meetings.decision_baselines@.len() == 0
            &&& old(store).m3.deliverables.documents@.len() == 0
            &&& old(store).m3.deliverables.costs@.len() == 0
            &&& same_entries(final(store).identity, draft->Ok_0.identity)
            &&& same_work_but_pets(final(store).m3, draft->Ok_0.m3)
            &&& final(store).m3.office.pet_profiles@ == (if old(
                store).m3.office.pet_profiles@.len() == 0 {
                draft->Ok_0.m3.office.pet_profiles@
            } else {
                old(store).m3.office.pet_profiles@
            })
            &&& final(store).identity_revision == old(store).identity_revision + 1
            &&& final(store).m3_revision == old(store).m3_revision + 1
            &&& r->Ok_0.protocol_version == 1
            &&& r->Ok_0.project_id == draft->Ok_0.project_id
            &&& r->Ok_0.meeting_id == draft->Ok_0.meeting_id
            &&& r->Ok_0.catalog_revision == final(store).identity_revision
            &&& r->Ok_0.m3_revision == final(store).m3_revision
            &&& r->Ok_0.event_sequence == final(store).events@.last().sequence
            &&& told(
                old(store).events@,
                final(store).events@,
                "mvp.prepared"@,
                fields().push(("meeting_id"@, json_uid(draft->Ok_0.meeting_id))).push(
                    ("project_id"@, json_uid(draft->Ok_0.project_id)),
                ),
                *now,
            )
            &&& final(store).graphs@ == old(store).graphs@
            &&& launches_kept(*old(store), *final(store))
        },
{
    if r is Ok {
        assert(final(store)@.identity == final(store).identity@);
        assert(final(store)@.m3 == final(store).m3@);
    }
}

} // verus!
