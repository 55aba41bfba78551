//! What is recorded of a run between its start and its end, and the check before
//! its launch.
use crate::error::{CatalogError, StoreError};
use crate::identity::{Moment, NormalizedRunState};
use crate::preflight::preflight_refusal;
use crate::json::{fields, json_uid};
use crate::promises::{changed_at, moved, named, told};
use crate::protocol::{BeginGraphNodeRunReceipt, CancelRunReceipt};
use crate::store::Store;
use crate::text::blank;
use crate::uid::{find, lemma_find, Uid};
use vstd::prelude::*;

verus! {

/// A run in the catalog, the first with its identifier.
pub open spec fn run_at(s: Store, run_id: Uid, i: int) -> bool {
    &&& 0 <= i < s.identity.runs@.len()
    &&& s.identity.runs@[i].metadata.id == run_id
    &&& forall|x: int| 0 <= x < i ==> (#[trigger] s.identity.runs@[x]).metadata.id != run_id
}

/// A session in the catalog, the first with its identifier.
pub open spec fn session_at(s: Store, session_id: Uid, j: int) -> bool {
    &&& 0 <= j < s.identity.sessions@.len()
    &&& s.identity.sessions@[j].metadata.id == session_id
    &&& forall|x: int|
        0 <= x < j ==> (#[trigger] s.identity.sessions@[x]).metadata.id != session_id
}

/// A starting run that reports progress runs, in the session that it names; a
/// run that reports nothing new changes nothing.
pub proof fn law_progress_is_recorded(
    store: &mut Store,
    run_id: Uid,
    session: Option<String>,
    fault: Option<CatalogError>,
    now: &Moment,
    r: Result<u64, StoreError>,
    i: int,
    j: int,
)
    requires
        call_ensures(Store::record_provider_running, (store, run_id, session, fault, now), r),
        run_at(*old(store), run_id, i),
        session_at(*old(store), old(store).identity.runs@[i].session_id, j),
    ensures
        r is Err ==> *final(store) == *old(store),
        r is Ok ==> {
            let run = old(store).identity.runs@[i];
            let known = old(store).identity.sessions@[j].provider_session_id;
            let renamed = session is Some && (known is None || known->0@ != session->0@);
            &&& r->Ok_0 == final(store).identity_revision
            &&& session is Some ==> !blank(session->0@)
            &&& run.state == NormalizedRunState::Starting || run.state
                == NormalizedRunState::Running || run.state == NormalizedRunState::Cancelling
            &&& run.state == NormalizedRunState::Starting
                ==> moved(
                run,
                final(store).identity.runs@[i],
                NormalizedRunState::Running,
                *now,
            )
            &&& renamed ==> named(
                old(store).identity.sessions@[j],
                final(store).identity.sessions@[j],
                session->0@,
                *now,
            )
            &&& run.state != NormalizedRunState::Starting ==> final(store).identity.runs@[i]
                == run
            &&& final(store).identity.runs@[i].started_at == run.started_at
            &&& final(store).identity.runs@[i].finished_at == run.finished_at
            &&& session is Some ==> {
                &&& final(store).identity.sessions@[j].provider_session_id is Some
                &&& final(store).identity.sessions@[j].provider_session_id->0@ == session->0@
            }
            &&& !renamed ==> final(store).identity.sessions@[j]
                == old(store).identity.sessions@[j]
            &&& run.state == NormalizedRunState::Starting || renamed ==> {
                &&& final(store).identity_revision == old(store).identity_revision + 1
                &&& told(
                    old(store).events@,
                    final(store).events@,
                    "run.provider_running"@,
                    fields().push(("run_id"@, json_uid(run_id))),
                    *now,
                )
                &&& fault is None
            }
            &&& run.state != NormalizedRunState::Starting && !renamed ==> final(store)@
                == old(store)@
            &&& changed_at(old(store).identity.runs@, final(store).identity.runs@, i)
            &&& changed_at(old(store).identity.sessions@, final(store).identity.sessions@, j)
            &&& final(store).graphs@ == old(store).graphs@
            &&& final(store).node_runs@ == old(store).node_runs@
            &&& final(store).grants@ == old(store).grants@
            &&& final(store).outputs@ == old(store).outputs@
        },
        session is Some && blank(session->0@) ==> r is Err,
{
    lemma_find(old(store)@.identity.runs, run_id);
    lemma_find(old(store)@.identity.sessions, old(store)@.identity.runs[i].session_id);
    assert(final(store)@.identity.runs == final(store).identity.runs@);
    assert(final(store)@.identity.sessions == final(store).identity.sessions@);
}

/// A run may be interrupted only under the revision that the caller has seen and
/// while a provider works on it.
pub proof fn law_interrupt_is_checked(
    store: &Store,
    run_id: Uid,
    expected: u64,
    r: Result<(), StoreError>,
    i: int,
)
    requires
        call_ensures(Store::preflight_provider_cancel, (store, run_id, expected), r),
        run_at(*store, run_id, i),
    ensures
        r is Ok <==> store.identity_revision == expected && (store.identity.runs@[i].state
            == NormalizedRunState::Running || store.identity.runs@[i].state
            == NormalizedRunState::Recovering),
        r is Err ==> r->Err_0 is RevisionConflict || r->Err_0 is InvalidRunState,
        r is Err && store.identity_revision != expected ==> r->Err_0 is RevisionConflict,
{
    lemma_find(store@.identity.runs, run_id);
}

/// An interrupt that is accepted makes the run a cancelling one, unless it has
/// ended in the meantime: then its end stands.
pub proof fn law_accepted_interrupt_is_recorded(
    store: &mut Store,
    run_id: Uid,
    fault: Option<CatalogError>,
    now: &Moment,
    r: Result<CancelRunReceipt, StoreError>,
    i: int,
)
    requires
        call_ensures(Store::record_provider_cancel_after_preflight, (store, run_id, fault, now), r),
        run_at(*old(store), run_id, i),
    ensures
        r is Err ==> *final(store) == *old(store),
        r is Ok ==> {
            let run = old(store).identity.runs@[i];
            let ended = crate::promises::supervising::over(run.state);
            &&& run.state != NormalizedRunState::AwaitingApproval
            &&& ended ==> {
                &&& final(store).identity@ == old(store).identity@
                &&& final(store).identity_revision == old(store).identity_revision
                &&& told(
                    old(store).events@,
                    final(store).events@,
                    "run.cancel_accepted_terminal_won"@,
                    fields().push(("run_id"@, json_uid(run_id))),
                    *now,
                )
            }
            &&& !ended ==> {
                &&& changed_at(old(store).identity.runs@, final(store).identity.runs@, i)
                &&& moved(
                    run,
                    final(store).identity.runs@[i],
                    NormalizedRunState::Cancelling,
                    *now,
                )
                &&& final(store).identity.runs@[i].started_at == run.started_at
                &&& final(store).identity.runs@[i].finished_at == run.finished_at
                &&& final(store).identity_revision == old(store).identity_revision + 1
                &&& told(
                    old(store).events@,
                    final(store).events@,
                    "run.cancel_accepted"@,
                    fields().push(("run_id"@, json_uid(run_id))),
                    *now,
                )
            }
            &&& r->Ok_0.protocol_version == 1
            &&& r->Ok_0.run_id == run_id
            &&& r->Ok_0.catalog_revision == final(store).identity_revision
            &&& r->Ok_0.event_sequence == final(store).events@.last().sequence
            &&& final(store).graphs@ == old(store).graphs@
            &&& final(store).node_runs@ == old(store).node_runs@
        },
{
    lemma_find(old(store)@.identity.runs, run_id);
    assert(final(store)@.identity.runs == final(store).identity.runs@);
}

/// The same, where the caller names the revision that it has seen.
pub proof fn law_accepted_interrupt_is_recorded_under_a_revision(
    store: &mut Store,
    run_id: Uid,
    expected: u64,
    fault: Option<CatalogError>,
    now: &Moment,
    r: Result<CancelRunReceipt, StoreError>,
    i: int,
)
    requires
        call_ensures(
            Store::record_provider_cancel_accepted,
            (store, run_id, expected, fault, now),
            r,
        ),
        run_at(*old(store), run_id, i),
    ensures
        r is Err ==> *final(store) == *old(store),
        r is Ok ==> {
            let run = old(store).identity.runs@[i];
            &&& old(store).identity_revision == expected
            &&& run.state == NormalizedRunState::Starting || run.state
                == NormalizedRunState::Running || run.state == NormalizedRunState::Recovering
            &&& changed_at(old(store).identity.runs@, final(store).identity.runs@, i)
            &&& moved(
                    run,
                    final(store).identity.runs@[i],
                    NormalizedRunState::Cancelling,
                    *now,
                )
            &&& final(store).identity.runs@[i].started_at == run.started_at
            &&& final(store).identity_revision == old(store).identity_revision + 1
            &&& r->Ok_0.run_id == run_id
            &&& r->Ok_0.catalog_revision == final(store).identity_revision
            &&& told(
                    old(store).events@,
                    final(store).events@,
                    "run.cancel_accepted"@,
                    fields().push(("run_id"@, json_uid(run_id))),
                    *now,
                )
        },
        old(store).identity_revision != expected ==> r is Err && r->Err_0 is RevisionConflict,
{
    lemma_find(old(store)@.identity.runs, run_id);
    assert(final(store)@.identity.runs == final(store).identity.runs@);
}

/// A launch goes ahead only with the receipt of its start: the recorded attempt,
/// selection and plan say what the receipt says, and the run is still starting.
pub proof fn law_launch_goes_ahead_only_as_recorded(
    store: &Store,
    receipt: &BeginGraphNodeRunReceipt,
    r: Result<(), StoreError>,
)
    requires
        call_ensures(Store::preflight_provider_launch, (store, receipt), r),
        r is Ok,
    ensures
        receipt.launch_identity is Some,
        exists|k: int|
            {
                &&& 0 <= k < store.node_runs@.len()
                &&& (#[trigger] store.node_runs@[k]).run_id == receipt.run_id
                &&& store.node_runs@[k].execution_id == receipt.execution_id
                &&& store.node_runs@[k].node_id == receipt.node_id
                &&& store.node_runs@[k].launch is Selected
                &&& store.node_runs@[k].launch->Selected_0@ == receipt.launch_identity->0@
                &&& store.node_runs@[k].launch->Selected_0.adapter_kind@ == receipt.adapter_kind@
                &&& store.node_runs@[k].launch->Selected_0.model@ == receipt.model@
            },
        exists|i: int|
            {
                &&& 0 <= i < store.identity.runs@.len()
                &&& (#[trigger] store.identity.runs@[i]).metadata.id == receipt.run_id
                &&& store.identity.runs@[i].state == NormalizedRunState::Starting
                &&& store.identity.runs@[i].session_id == receipt.session_id
                &&& store.identity.runs@[i].model_id == receipt.launch_identity->0.model_id
            },
        exists|j: int|
            {
                &&& 0 <= j < store.identity.sessions@.len()
                &&& (#[trigger] store.identity.sessions@[j]).metadata.id == receipt.session_id
                &&& store.identity.sessions@[j].agent_instance_id
                    == receipt.launch_identity->0.agent_instance_id
                &&& store.identity.sessions@[j].project_id
                    == receipt.launch_identity->0.project_id
            },
        exists|p: int|
            {
                &&& 0 <= p < store.plans@.len()
                &&& (#[trigger] store.plans@[p]).run_id == receipt.run_id
                &&& store.plans@[p].plan.version == 1
                &&& store.plans@[p].plan.run_id == receipt.run_id
                &&& store.plans@[p].plan.execution_id == receipt.execution_id
                &&& store.plans@[p].plan.node_id == receipt.node_id
                &&& store.plans@[p].plan.session_id == receipt.session_id
                &&& store.plans@[p].plan.identity@ == receipt.launch_identity->0@
                &&& store.plans@[p].plan.workspace_root@ == receipt.workspace_root@
                &&& store.plans@[p].plan.prompt@ == receipt.prompt@
            },
        exists|g: int|
            {
                &&& 0 <= g < store.graphs@.len()
                &&& (#[trigger] store.graphs@[g]).execution_id == receipt.execution_id
                &&& store.graphs@[g].graph.execution.spec_bound_run(receipt.node_id) == Some(
                    receipt.run_id,
                )
            },
{
    let s = store@;
    assert(preflight_refusal(s, *receipt) is None);
    lemma_find(s.node_runs, receipt.run_id);
    lemma_find(s.identity.runs, receipt.run_id);
    lemma_find(s.identity.sessions, receipt.session_id);
    lemma_find(s.plans, receipt.run_id);
    lemma_find(s.graphs, receipt.execution_id);
    let k = find(s.node_runs, receipt.run_id)->0;
    assert(store.node_runs@[k].run_id == receipt.run_id);
    let i = find(s.identity.runs, receipt.run_id)->0;
    assert(store.identity.runs@[i].metadata.id == receipt.run_id);
    assert(receipt.launch_identity->0@ == store.node_runs@[k].launch->Selected_0@);
    assert(receipt.launch_identity->0@.model_id == receipt.launch_identity->0.model_id);
    let j = find(s.identity.sessions, receipt.session_id)->0;
    assert(store.identity.sessions@[j].metadata.id == receipt.session_id);
    let p = find(s.plans, receipt.run_id)->0;
    assert(store.plans@[p].run_id == receipt.run_id);
    let g = find(s.graphs, receipt.execution_id)->0;
    assert(store.graphs@[g].execution_id == receipt.execution_id);
}

/// An online launch goes ahead only if it passes the check and its plan was made
/// under policies that leave it the network and the workspace.
pub proof fn law_online_launch_needs_the_network_and_the_workspace(
    store: &Store,
    receipt: &BeginGraphNodeRunReceipt,
    r: Result<(), StoreError>,
    check: Result<(), StoreError>,
)
    requires
        call_ensures(Store::validate_online_cli_launch, (store, receipt), r),
        call_ensures(Store::preflight_provider_launch, (store, receipt), check),
    ensures
        r is Ok ==> check is Ok,
        r is Ok ==> exists|p: int|
            {
                &&& 0 <= p < store.plans@.len()
                &&& (#[trigger] store.plans@[p]).run_id == receipt.run_id
                &&& store.plans@[p].plan.policy is Some
                &&& !(store.plans@[p].plan.policy->0.role.network is Deny)
                &&& !(store.plans@[p].plan.policy->0.role.filesystem is Deny)
                &&& !(store.plans@[p].plan.policy->0.project.network is Deny)
                &&& !(store.plans@[p].plan.policy->0.project.filesystem is Deny)
            },
{
    if r is Ok {
        lemma_find(store@.plans, receipt.run_id);
        let p = find(store@.plans, receipt.run_id)->0;
        assert(store.plans@[p].run_id == receipt.run_id);
    }
}

} // verus!
