//! What a restart makes of the state that was left behind.
use crate::error::{CatalogError, StoreError};
use crate::identity::{Moment, NormalizedRunState, Run};
use crate::promises::living::underway;
use crate::protocol::StagedLaunchState;
use crate::recovery::{active_count, GraphRecovery};
use crate::store::Store;
use crate::uid::Uid;
use vstd::prelude::*;

verus! {

/// This is what a restart makes of a run: one that a provider may have been
/// working on is uncertain, one revision on, and every other is as it was.
pub open spec fn left_uncertain(before: Run, after: Run, now: Moment) -> bool {
    &&& underway(before) ==> {
        &&& after.state == NormalizedRunState::Uncertain
        &&& after.metadata.id == before.metadata.id
        &&& after.metadata.revision == before.metadata.revision + 1
        &&& after.metadata.updated_at@ == now.text@
        &&& after.metadata.created_at@ == before.metadata.created_at@
        &&& after.session_id == before.session_id
        &&& after.model_id == before.model_id
        &&& after.started_at == before.started_at
        &&& after.finished_at == before.finished_at
    }
    &&& !underway(before) ==> after == before
}

/// A restart of this state: runs that a provider may have been working on and
/// launches that were being dispatched are uncertain, executions are those found
/// for it, and the rest stays.
pub open spec fn taken_up(pre: Store, post: Store, recovered: Seq<GraphRecovery>, now: Moment) -> bool {
    &&& post.daemon_id == pre.daemon_id
    &&& post.revision == pre.revision + 1
    &&& post.lifecycle@ == "recovering"@
    &&& post.identity.runs@.len() == pre.identity.runs@.len()
    &&& forall|i: int|
        0 <= i < pre.identity.runs@.len() ==> left_uncertain(
            pre.identity.runs@[i],
            #[trigger] post.identity.runs@[i],
            now,
        )
    &&& (forall|i: int|
        0 <= i < pre.identity.runs@.len() ==> !underway(#[trigger] pre.identity.runs@[i]))
        ==> post.identity_revision == pre.identity_revision
    &&& (exists|i: int|
        0 <= i < pre.identity.runs@.len() && underway(#[trigger] pre.identity.runs@[i]))
        ==> post.identity_revision == pre.identity_revision + 1
    &&& post.staged@.len() == pre.staged@.len()
    &&& forall|t: int|
        0 <= t < pre.staged@.len() ==> {
            &&& (#[trigger] post.staged@[t]).run_id == pre.staged@[t].run_id
            &&& post.staged@[t].request_id == pre.staged@[t].request_id
            &&& post.staged@[t].staged_at_ms == pre.staged@[t].staged_at_ms
            &&& pre.staged@[t].state == StagedLaunchState::Dispatching ==> post.staged@[t].state
                == StagedLaunchState::Uncertain
            &&& pre.staged@[t].state != StagedLaunchState::Dispatching ==> post.staged@[t]
                == pre.staged@[t]
        }
    &&& post.graphs@.len() == pre.graphs@.len()
    &&& forall|g: int|
        0 <= g < pre.graphs@.len() ==> {
            &&& (#[trigger] post.graphs@[g]).execution_id == pre.graphs@[g].execution_id
            &&& recovered[g].changed == 0 ==> post.graphs@[g] == pre.graphs@[g]
            &&& recovered[g].changed > 0 ==> post.graphs@[g].graph == recovered[g].graph
                && post.graphs@[g].revision == recovered[g].graph.execution.revision
                && post.graphs@[g].updated_at@ == now.text@
        }
    &&& post.identity.sessions@ == pre.identity.sessions@
    &&& post.identity.agent_instances@ == pre.identity.agent_instances@
    &&& post.identity.accounts@ == pre.identity.accounts@
    &&& post.m3_revision == pre.m3_revision
    &&& post.m3@ == pre.m3@
    &&& post.node_runs@ == pre.node_runs@
    &&& post.outputs@ == pre.outputs@
    &&& post.approvals@ == pre.approvals@
    &&& post.grants@ == pre.grants@
    &&& post.plans@ == pre.plans@
    &&& post.claims@ == pre.claims@
    &&& post.checkpoints@ == pre.checkpoints@
    &&& post.events@.len() > pre.events@.len()
    &&& post.events@[pre.events@.len() as int].event_type@ == "daemon.recovery_started"@
    &&& forall|i: int| 0 <= i < pre.events@.len() ==> #[trigger] post.events@[i] == pre.events@[i]
}

proof fn lemma_none_active(runs: Seq<Run>, n: nat)
    requires
        n <= runs.len(),
    ensures
        (forall|i: int| 0 <= i < n ==> !underway(#[trigger] runs[i])) <==> active_count(runs, n)
            == 0,
    decreases n,
{
    if n > 0 {
        lemma_none_active(runs, (n - 1) as nat);
        if underway(runs[n - 1]) {
            assert(active_count(runs, n) > 0);
        }
    }
}

proof fn lemma_taken_up(pre: Store, post: Store, recovered: Seq<GraphRecovery>, now: Moment)
    requires
        crate::recovery::restarted(pre@, post@, recovered, now),
        !crate::recovery::run_overflows(pre@.identity.runs),
        pre.identity_revision < u64::MAX || active_count(
            pre@.identity.runs,
            pre@.identity.runs.len(),
        ) == 0,
        pre.revision < u64::MAX,
    ensures
        taken_up(pre, post, recovered, now),
{
    let runs = pre.identity.runs@;
    assert(pre@.identity.runs == runs);
    assert(post@.identity.runs == post.identity.runs@);
    assert(post@.identity.sessions == post.identity.sessions@);
    assert(post@.identity.accounts == post.identity.accounts@);
    assert(post@.identity.agent_instances == post.identity.agent_instances@);
    lemma_none_active(runs, runs.len());
    assert forall|i: int| 0 <= i < runs.len() implies left_uncertain(
        runs[i],
        #[trigger] post.identity.runs@[i],
        now,
    ) by {
        if underway(runs[i]) {
            assert(crate::lifecycle::run_active(pre@.identity.runs[i]));
        }
    }
    let notes = crate::recovery::restart_notes(pre@) + crate::recovery::recovery_notes(
        recovered,
        recovered.len(),
    );
    assert(notes[0].0 == "daemon.recovery_started"@);
    let n = pre.events@.len();
    assert(post.events@[pre.events@.len() + 0int].event_type@ == notes[0].0);
    assert forall|i: int| 0 <= i < n implies #[trigger] post.events@[i] == pre.events@[i] by {
        assert(post.events@.take(n as int)[i] == post.events@[i]);
    }
    assert forall|t: int| 0 <= t < pre.staged@.len() implies {
        &&& (#[trigger] post.staged@[t]).run_id == pre.staged@[t].run_id
        &&& post.staged@[t].request_id == pre.staged@[t].request_id
        &&& post.staged@[t].staged_at_ms == pre.staged@[t].staged_at_ms
        &&& pre.staged@[t].state == StagedLaunchState::Dispatching ==> post.staged@[t].state
            == StagedLaunchState::Uncertain
        &&& pre.staged@[t].state != StagedLaunchState::Dispatching ==> post.staged@[t]
            == pre.staged@[t]
    } by {
        assert(post@.staged[t] == crate::dispatch::reconciled_row(pre@.staged[t]));
    }
    assert forall|g: int| 0 <= g < pre.graphs@.len() implies {
        &&& (#[trigger] post.graphs@[g]).execution_id == pre.graphs@[g].execution_id
        &&& recovered[g].changed == 0 ==> post.graphs@[g] == pre.graphs@[g]
        &&& recovered[g].changed > 0 ==> post.graphs@[g].graph == recovered[g].graph
            && post.graphs@[g].revision == recovered[g].graph.execution.revision
            && post.graphs@[g].updated_at@ == now.text@
    } by {
        assert(post@.graphs[g] == crate::recovery::recovered_row(
            pre@.graphs[g],
            recovered[g],
            now,
        ));
    }
}

/// A restart takes up what was left behind, or refuses and leaves it as it is.
pub proof fn law_restart_leaves_runs_uncertain(
    store: &mut Store,
    stored_fault: Option<CatalogError>,
    recovered_fault: Option<CatalogError>,
    recovered: Vec<GraphRecovery>,
    now: &Moment,
    r: Result<(), StoreError>,
)
    requires
        call_ensures(
            Store::recover,
            (store, stored_fault, recovered_fault, recovered, now),
            r,
        ),
    ensures
        r is Err ==> *final(store) == *old(store),
        r is Ok ==> stored_fault is None && taken_up(*old(store), *final(store), recovered@, *now),
{
    if r is Ok {
        lemma_taken_up(*old(store), *final(store), recovered@, *now);
    }
}

/// Opening makes a new daemon with nothing in it where nothing was stored, and
/// takes up what was stored elsewhere.
pub proof fn law_opening_starts_or_takes_up(
    stored: Option<Store>,
    daemon_id: Uid,
    stored_fault: Option<CatalogError>,
    recovered_fault: Option<CatalogError>,
    recovered: Vec<GraphRecovery>,
    now: &Moment,
    r: Result<Store, StoreError>,
)
    requires
        call_ensures(
            Store::open,
            (stored, daemon_id, stored_fault, recovered_fault, recovered, now),
            r,
        ),
    ensures
        stored is None ==> {
            &&& r is Ok
            &&& r->Ok_0.daemon_id == daemon_id
            &&& r->Ok_0.revision == 0
            &&& r->Ok_0.lifecycle@ == "starting"@
            &&& r->Ok_0.identity_revision == 0
            &&& r->Ok_0.m3_revision == 0
            &&& r->Ok_0.identity.runs@.len() == 0
            &&& r->Ok_0.identity.sessions@.len() == 0
            &&& r->Ok_0.identity.projects@.len() == 0
            &&& r->Ok_0.identity.accounts@.len() == 0
            &&& r->Ok_0.m3.deliverables.documents@.len() == 0
            &&& r->Ok_0.m3.meetings.meetings@.len() == 0
            &&& r->Ok_0.graphs@.len() == 0
            &&& r->Ok_0.approvals@.len() == 0
            &&& r->Ok_0.grants@.len() == 0
            &&& r->Ok_0.staged@.len() == 0
            &&& r->Ok_0.events@.len() == 0
        },
        stored is Some && r is Ok ==> taken_up(stored->0, r->Ok_0, recovered@, *now),
        stored is Some && stored_fault is Some ==> r is Err,
{
    if stored is Some && r is Ok {
        lemma_taken_up(stored->0, r->Ok_0, recovered@, *now);
    } else if stored is None {
        let store = r->Ok_0;
        assert(store@.identity == store.identity@);
        assert(store@.m3 == store.m3@);
    }
}

} // verus!
