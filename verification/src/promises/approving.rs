//! Requests for approval, the grants they lead to, and how both end.
use crate::approval::{
    ApprovalAction, ApprovalDecision, ApprovalDecisionKind, ApprovalRequest, ApprovalRow,
};
use crate::approvals::{
    decision_steps, decision_time, is_hash_known, ApprovalFindings, DecideFindings,
};
use crate::cancel::{cancel_target, find_request, CancelFindings};
use crate::error::{ApprovalError, StoreError};
use crate::expiry::{expired_launches, ExpiredLaunch};
use crate::graph::CheckedGraph;
use crate::grants::{now_ms, validate_time, GrantFindings};
use crate::identity::{Moment, NormalizedRunState};
use crate::json::{fields, json_string, json_uid, json_uid_option};
use crate::promises::{changed_at, one_more, told};
use crate::protocol::{
    ApprovalList, ApprovalReceipt, ApprovalRecord, CreateApprovalCommand, CredentialGrantRecord,
    DecideApprovalCommand, RevokeCredentialGrantCommand, StagedLaunchState,
};
use crate::staged::StagedFindings;
use crate::store::{StagedRow, Store, StoreView};
use crate::text::decimal;
use crate::uid::{find, lemma_find, Uid};
use vstd::prelude::*;

verus! {

/// A request is open from its creation until it expires, and not at the moment
/// it expires.
pub proof fn law_requests_are_open_until_they_expire(
    request: &ApprovalRequest,
    now: u64,
    r: Result<(), StoreError>,
)
    requires
        call_ensures(validate_time, (request, now), r),
    ensures
        r is Ok <==> request.created_at_ms <= now && now < request.expires_at_ms
            && request.expires_at_ms <= 0x7fff_ffff_ffff_ffff,
        r is Err ==> r->Err_0 is CredentialGrantRejected,
{
}

/// The daemon's clock is taken as it reads, and refused where it cannot be stored.
pub proof fn law_clock_is_taken_as_read(reading: Option<u128>, r: Result<u64, StoreError>)
    requires
        call_ensures(now_ms, (reading,), r),
    ensures
        r is Ok <==> reading is Some && reading->0 <= 0x7fff_ffff_ffff_ffff,
        r is Ok ==> r->Ok_0 == reading->0,
        r is Err ==> r->Err_0 is CredentialGrantRejected,
{
}

/// A hash is known exactly when a request has it.
pub proof fn law_hashes_are_known_by_requests(rows: &Vec<ApprovalRow>, hash: &String, r: bool)
    requires
        call_ensures(is_hash_known, (rows, hash), r),
    ensures
        r ==> exists|i: int|
            0 <= i < rows@.len() && (#[trigger] rows@[i]).request.request_hash@ == hash@,
        !r ==> forall|i: int|
            0 <= i < rows@.len() ==> (#[trigger] rows@[i]).request.request_hash@ != hash@,
{
    if r {
        let i = choose|i: int|
            0 <= i < rows@.len() && #[trigger] rows@[i].request.request_hash@ == hash@;
        assert(rows@[i].request.request_hash@ == hash@);
    } else {
        assert forall|i: int| 0 <= i < rows@.len() implies (
        #[trigger] rows@[i]).request.request_hash@ != hash@ by {
            assert(!(rows@[i].request.request_hash@ == hash@));
        }
    }
}

/// A request is entered as it is, undecided and last. Neither its identifier nor
/// its hash was there before, and nothing else changes.
pub proof fn law_request_is_entered_undecided(
    store: &mut Store,
    command: CreateApprovalCommand,
    f: &ApprovalFindings,
    now: &Moment,
    r: Result<ApprovalReceipt, StoreError>,
)
    requires
        call_ensures(Store::create_approval, (store, command, f, now), r),
    ensures
        r is Err ==> *final(store) == *old(store),
        r is Ok ==> {
            &&& one_more(old(store).approvals@, final(store).approvals@)
            &&& final(store).approvals@.last().request == command.request
            &&& final(store).approvals@.last().decision is None
            &&& r->Ok_0.protocol_version == 1
            &&& r->Ok_0.request_id == command.request.id
            &&& r->Ok_0.event_sequence == final(store).events@.last().sequence
            &&& told(
                old(store).events@,
                final(store).events@,
                "approval.requested"@,
                fields().push(("request_id"@, json_uid(command.request.id))).push(
                    ("risk"@, json_string(command.request.action.risk@)),
                ),
                *now,
            )
            &&& f.catalog_fault is None
            &&& f.authority_fault is None
            &&& final(store).grants@ == old(store).grants@
            &&& final(store).staged@ == old(store).staged@
            &&& final(store).claims@ == old(store).claims@
            &&& final(store).plans@ == old(store).plans@
            &&& final(store).identity@ == old(store).identity@
            &&& final(store).graphs@ == old(store).graphs@
            &&& final(store).revision == old(store).revision
        },
        r is Ok ==> forall|a: int|
            0 <= a < old(store).approvals@.len() ==> (#[trigger] old(store).approvals@[a]).request.id
                != command.request.id && old(store).approvals@[a].request.request_hash@
                != command.request.request_hash@,
        r is Ok && command.request.action.scope.credential_binding is Some
            ==> command.request.created_at_ms <= now.ms && now.ms < command.request.expires_at_ms
            && f.m3_fault is None,
        (command.request.action.scope.credential_binding is None && f.catalog_fault is None
            && f.authority_fault is None && command.request.expires_at_ms <= 0x7fff_ffff_ffff_ffff
            && (old(store).events@.len() > 0 ==> old(store).events@.last().sequence
            < 0x7fff_ffff_ffff_ffff) && forall|a: int|
            0 <= a < old(store).approvals@.len() ==> (#[trigger] old(store).approvals@[a]).request.id
                != command.request.id && old(store).approvals@[a].request.request_hash@
                != command.request.request_hash@) ==> r is Ok,
{
    let s = old(store)@;
    lemma_find(s.approvals, command.request.id);
    assert(s.approvals == old(store).approvals@);
    if r is Ok {
        assert(final(store).approvals@.drop_last() == old(store).approvals@);
        assert forall|a: int| 0 <= a < s.approvals.len() implies (
        #[trigger] s.approvals[a]).request.request_hash@ != command.request.request_hash@ by {
            assert(!(s.approvals[a].request.request_hash@
                == command.request.request_hash@));
        }
    }
}

/// A record shows this request as it stands, with its decision, and how far the
/// launch has come that waits for it.
pub open spec fn shows(record: ApprovalRecord<'_>, row: ApprovalRow, staged: Seq<StagedRow>) -> bool {
    &&& record.protocol_version == 1
    &&& *record.request == row.request
    &&& record.decision is Some <==> row.decision is Some
    &&& record.decision is Some ==> *record.decision->0 == row.decision->0
    &&& record.staged_launch_state is Some ==> exists|t: int|
        0 <= t < staged.len() && (#[trigger] staged[t]).request_id == row.request.id
            && staged[t].state == record.staged_launch_state->0
    &&& record.staged_launch_state is None ==> forall|t: int|
        0 <= t < staged.len() ==> (#[trigger] staged[t]).request_id != row.request.id
}

proof fn lemma_found_request(rows: Seq<StagedRow>, id: Uid, from: int)
    requires
        0 <= from,
    ensures
        match find_request(rows, id, from) {
            Some(t) => from <= t < rows.len() && rows[t].request_id == id,
            None => forall|t: int|
                from <= t < rows.len() ==> (#[trigger] rows[t]).request_id != id,
        },
    decreases rows.len() - from,
{
    if from < rows.len() && rows[from].request_id != id {
        lemma_found_request(rows, id, from + 1);
    }
}

/// A request is shown as it stands.
pub proof fn law_request_is_shown_as_it_stands(
    store: &Store,
    request_id: Uid,
    r: Result<ApprovalRecord<'_>, StoreError>,
)
    requires
        call_ensures(Store::approval, (store, request_id), r),
    ensures
        r is Ok ==> exists|a: int|
            0 <= a < store.approvals@.len() && (#[trigger] store.approvals@[a]).request.id
                == request_id && shows(r->Ok_0, store.approvals@[a], store.staged@),
        r is Err ==> r->Err_0 is ApprovalNotFound && forall|a: int|
            0 <= a < store.approvals@.len() ==> (#[trigger] store.approvals@[a]).request.id
                != request_id,
{
    lemma_find(store@.approvals, request_id);
    assert(store@.approvals == store.approvals@);
    if r is Ok {
        let a = find(store@.approvals, request_id)->0;
        lemma_found_request(store@.staged, request_id, 0);
        if find_request(store@.staged, request_id, 0) is Some {
            let t = find_request(store@.staged, request_id, 0)->0;
            assert(store.staged@[t].request_id == request_id);
        }
        assert(store.approvals@[a].request.id == request_id);
    }
}

/// All requests are shown, the latest first.
pub proof fn law_requests_are_shown_latest_first(store: &Store, r: ApprovalList<'_>)
    requires
        call_ensures(Store::approvals, (store,), r),
    ensures
        r.protocol_version == 1,
        r.records@.len() == store.approvals@.len(),
        forall|i: int|
            0 <= i < r.records@.len() ==> shows(
                #[trigger] r.records@[i],
                store.approvals@[store.approvals@.len() - 1 - i],
                store.staged@,
            ),
{
    let n = store.approvals@.len();
    assert(store@.staged == store.staged@);
    assert forall|i: int| 0 <= i < r.records@.len() implies shows(
        #[trigger] r.records@[i],
        store.approvals@[n - 1 - i],
        store.staged@,
    ) by {
        let id = store.approvals@[n - 1 - i].request.id;
        lemma_found_request(store@.staged, id, 0);
        assert(crate::approvals::shown(r.records@[i], store@.approvals[n - 1 - i], store@.staged));
        if find_request(store@.staged, id, 0) is Some {
            assert(store.staged@[find_request(store@.staged, id, 0)->0].request_id == id);
        }
    }
}

/// The use of a credential is decided when the daemon says so; any other decision
/// carries the time of whoever decided.
pub proof fn law_credential_decisions_use_the_daemon_clock(
    request: &ApprovalRequest,
    decision: &ApprovalDecision,
    now: &Moment,
    r: u64,
)
    requires
        call_ensures(decision_time, (request, decision, now), r),
    ensures
        request.action.scope.credential_binding is Some ==> r == now.ms,
        request.action.scope.credential_binding is None ==> r == decision.decided_at_ms,
{
}

/// A launch that had not begun was withdrawn for this reason: it, its run and its
/// attempt are cancelled, its execution is the one found for that, and no other
/// row of these tables changes.
pub open spec fn withdrawn(
    pre: StoreView,
    post: StoreView,
    request_id: Uid,
    reason: Seq<char>,
    graph: CheckedGraph,
    now: Moment,
) -> bool {
    exists|t: int, i: int, g: int, k: int|
        #![trigger pre.staged[t], pre.identity.runs[i], pre.graphs[g], pre.node_runs[k]]
        {
            let at_ms = if now.ms >= pre.staged[t].staged_at_ms {
                now.ms
            } else {
                pre.staged[t].staged_at_ms
            };
            &&& changed_at(pre.staged, post.staged, t)
            &&& pre.staged[t].request_id == request_id
            &&& pre.staged[t].state == StagedLaunchState::AwaitingApproval || pre.staged[t].state
                == StagedLaunchState::Ready
            &&& post.staged[t].request_id == request_id
            &&& post.staged[t].run_id == pre.staged[t].run_id
            &&& post.staged[t].state == StagedLaunchState::Cancelled
            &&& post.staged[t].staged_at_ms == pre.staged[t].staged_at_ms
            &&& post.staged[t].finished_at_ms == Some(at_ms)
            &&& post.staged[t].cancel_reason is Some
            &&& post.staged[t].cancel_reason->0@ == reason
            &&& changed_at(pre.identity.runs, post.identity.runs, i)
            &&& pre.identity.runs[i].metadata.id == pre.staged[t].run_id
            &&& post.identity.runs[i].metadata.id == pre.staged[t].run_id
            &&& post.identity.runs[i].metadata.revision == pre.identity.runs[i].metadata.revision
                + 1
            &&& post.identity.runs[i].metadata.updated_at@ == decimal(at_ms as nat)
            &&& post.identity.runs[i].state == NormalizedRunState::Cancelled
            &&& post.identity.runs[i].finished_at is Some
            &&& post.identity.runs[i].finished_at->0@ == decimal(at_ms as nat)
            &&& changed_at(pre.graphs, post.graphs, g)
            &&& post.graphs[g].execution_id == pre.graphs[g].execution_id
            &&& post.graphs[g].graph == graph
            &&& post.graphs[g].revision == graph.execution.revision
            &&& changed_at(pre.node_runs, post.node_runs, k)
            &&& pre.node_runs[k].run_id == pre.staged[t].run_id
            &&& pre.node_runs[k].finished_at is None
            &&& post.node_runs[k].run_id == pre.staged[t].run_id
            &&& post.node_runs[k].node_id == pre.node_runs[k].node_id
            &&& post.node_runs[k].attempt == pre.node_runs[k].attempt
            &&& post.node_runs[k].terminal_state == Some(NormalizedRunState::Cancelled)
            &&& post.node_runs[k].finished_at is Some
            &&& post.node_runs[k].finished_at->0@ == decimal(at_ms as nat)
            &&& post.node_runs[k].failure is None
            &&& post.identity_revision == pre.identity_revision + 1
            &&& post.outputs == pre.outputs
            &&& post.plans == pre.plans
            &&& post.claims == pre.claims
        }
}

#[verifier::rlimit(30)]
proof fn lemma_withdrawn(
    s: StoreView,
    pre: StoreView,
    post: StoreView,
    request_id: Uid,
    reason: Seq<char>,
    f: StagedFindings,
    findings: CancelFindings,
    now: Moment,
)
    requires
        cancel_target(s, request_id, reason, f) matches Ok(Some(t)) && {
            &&& crate::cancel::cancel_refusal(s, request_id, t, findings, now) is None
            &&& crate::cancel::launch_cancelled(
                pre,
                post,
                request_id,
                reason,
                t,
                findings.cancelled->Ok_0,
                now,
            )
        },
        pre.staged == s.staged,
        pre.identity == s.identity,
        pre.graphs == s.graphs,
        pre.node_runs == s.node_runs,
        pre.plans == s.plans,
        pre.identity_revision == s.identity_revision,
    ensures
        withdrawn(pre, post, request_id, reason, findings.cancelled->Ok_0, now),
{
    let t = cancel_target(s, request_id, reason, f)->Ok_0->0;
    lemma_found_request(s.staged, request_id, 0);
    let run_id = s.staged[t.staged].run_id;
    lemma_find(s.identity.runs, run_id);
    lemma_find(s.plans, run_id);
    lemma_find(s.graphs, s.plans[t.plan].plan.execution_id);
    lemma_find(s.node_runs, run_id);
    assert(pre.staged[t.staged].request_id == request_id);
    assert(pre.identity.runs[t.run].metadata.id == run_id);
    assert(pre.graphs[t.graph].revision == pre.graphs[t.graph].revision);
    assert(pre.node_runs[t.attempt].run_id == run_id);
}

/// Cancelling withdraws the launch that waits for a request. Where there is none,
/// or it was withdrawn before, nothing changes.
pub proof fn law_cancelling_withdraws_the_launch(
    store: &mut Store,
    request_id: Uid,
    reason: &str,
    f: &StagedFindings,
    findings: CancelFindings,
    now: &Moment,
    r: Result<(), StoreError>,
)
    requires
        call_ensures(Store::cancel_for_request, (store, request_id, reason, f, findings, now), r),
    ensures
        r is Err ==> *final(store) == *old(store),
        r is Ok ==> *final(store) == *old(store) || withdrawn(
            old(store)@,
            final(store)@,
            request_id,
            reason@,
            findings.cancelled->Ok_0,
            *now,
        ) && final(store).events@.last().event_type@ == "provider_launch.cancelled"@
            && final(store).approvals@ == old(store).approvals@ && findings.cancelled is Ok,
        r is Ok && *final(store) == *old(store) ==> forall|t: int|
            0 <= t < old(store).staged@.len() && (#[trigger] old(store).staged@[t]).request_id
                == request_id ==> exists|u: int|
                0 <= u < old(store).staged@.len() && (#[trigger] old(store).staged@[u]).request_id
                    == request_id && old(store).staged@[u].state == StagedLaunchState::Cancelled,
        r is Ok ==> forall|q: int|
            #![trigger final(store).grants@[q]]
            0 <= q < old(store).grants@.len() && old(store).grants@[q].request_id != request_id
                ==> final(store).grants@[q] == old(store).grants@[q],
        r is Ok ==> final(store).grants@.len() == old(store).grants@.len(),
{
    let s = old(store)@;
    lemma_found_request(s.staged, request_id, 0);
    lemma_find(s.grants, request_id);
    assert(s.staged == old(store).staged@);
    if r is Ok {
        match cancel_target(s, request_id, reason@, *f)->Ok_0 {
            None => {
                if find_request(s.staged, request_id, 0) is Some {
                    let u = find_request(s.staged, request_id, 0)->0;
                    assert(old(store).staged@[u].state == StagedLaunchState::Cancelled);
                }
            },
            Some(t) => {
                lemma_withdrawn(s, s, final(store)@, request_id, reason@, *f, findings, *now);
                assert(final(store).identity_revision == old(store).identity_revision + 1);
            },
        }
    }
}

/// A decision is recorded once, of a request that had none, in the words of
/// whoever decided. Approving the use of a credential needs it acknowledged while
/// the request is open, and issues its grant, unspent; denying issues none.
#[verifier::rlimit(40)]
pub proof fn law_decision_is_recorded_once(
    store: &mut Store,
    command: DecideApprovalCommand,
    f: DecideFindings,
    now: &Moment,
    r: Result<ApprovalReceipt, StoreError>,
)
    requires
        call_ensures(Store::decide_approval, (store, command, f, now), r),
    ensures
        r is Err ==> *final(store) == *old(store),
        r is Ok ==> exists|a: int|
            #![trigger old(store).approvals@[a]]
            {
                let row = old(store).approvals@[a];
                let after = final(store).approvals@[a];
                let bound = row.request.action.scope.credential_binding is Some;
                let approve = command.decision.kind == ApprovalDecisionKind::Approve;
                &&& changed_at(old(store).approvals@, final(store).approvals@, a)
                &&& row.request.id == command.decision.request_id
                &&& row.decision is None
                &&& after.request == row.request
                &&& after.decision is Some
                &&& after.decision->0.request_id == command.decision.request_id
                &&& after.decision->0.request_hash@ == command.decision.request_hash@
                &&& after.decision->0.kind == command.decision.kind
                &&& after.decision->0.actor@ == command.decision.actor@
                &&& after.decision->0.decided_at_ms == (if bound {
                    now.ms
                } else {
                    command.decision.decided_at_ms
                })
                &&& bound && approve ==> command.credential_scope_acknowledged
                &&& bound ==> row.request.created_at_ms <= now.ms && now.ms
                    < row.request.expires_at_ms
                &&& bound && approve ==> {
                    &&& one_more(old(store).grants@, final(store).grants@)
                    &&& final(store).grants@.last().request_id == command.decision.request_id
                    &&& final(store).grants@.last().issued_at_ms == now.ms
                    &&& final(store).grants@.last().consumed_at_ms is None
                    &&& final(store).grants@.last().revoked_at_ms is None
                    &&& final(store).grants@.last().revoked_by is None
                }
                &&& !(bound && approve) ==> final(store).grants@.len() == old(store).grants@.len()
            },
        r is Ok ==> f.decision_fault is None,
        r is Ok ==> {
            &&& r->Ok_0.protocol_version == 1
            &&& r->Ok_0.request_id == command.decision.request_id
            &&& r->Ok_0.event_sequence == final(store).events@.last().sequence
            &&& final(store).events@.last().event_type@ == (if command.decision.kind
                == ApprovalDecisionKind::Approve {
                "approval.approved"@
            } else {
                "approval.denied"@
            })
            &&& final(store).events@.last().occurred_at@ == now.text@
            &&& final(store).events@.last().payload_json@ == crate::json::object(
                fields().push(("actor"@, json_string(command.decision.actor@))).push(
                    ("request_id"@, json_uid(command.decision.request_id)),
                ),
            )
        },
{
    let s = old(store)@;
    lemma_find(s.approvals, command.decision.request_id);
    lemma_find(s.grants, command.decision.request_id);
    assert(s.approvals == old(store).approvals@);
    if r is Ok {
        let a = find(s.approvals, command.decision.request_id)->0;
        let (recorded, applied) = choose|recorded: StoreView, applied: StoreView| #[trigger]
            decision_steps(s, recorded, applied, final(store)@, command, f, *now);
        assert(old(store).approvals@[a].request.id == command.decision.request_id);
        assert(final(store)@.approvals == final(store).approvals@);
        assert(final(store)@.grants == final(store).grants@);
        assert(changed_at(old(store).approvals@, final(store).approvals@, a));
        assert(final(store).approvals@[a] == recorded.approvals[a]);
    }
}

/// An approved launch that waited for its approval is ready, and its run waits
/// on; a denied one is withdrawn. A decision that no launch waits for touches
/// none.
#[verifier::rlimit(40)]
pub proof fn law_decision_moves_the_launch_that_waits(
    store: &mut Store,
    command: DecideApprovalCommand,
    f: DecideFindings,
    now: &Moment,
    r: Result<ApprovalReceipt, StoreError>,
)
    requires
        call_ensures(Store::decide_approval, (store, command, f, now), r),
        r is Ok,
    ensures
        (forall|t: int|
            0 <= t < old(store).staged@.len() ==> (#[trigger] old(store).staged@[t]).request_id
                != command.decision.request_id) ==> final(store).staged@ == old(store).staged@
            && final(store).identity.runs@ == old(store).identity.runs@ && final(store).graphs@
            == old(store).graphs@ && final(store).node_runs@ == old(store).node_runs@,
        (command.decision.kind == ApprovalDecisionKind::Approve && exists|t: int|
            0 <= t < old(store).staged@.len() && (#[trigger] old(store).staged@[t]).request_id
                == command.decision.request_id) ==> {
            &&& exists|t: int|
                {
                    &&& changed_at(old(store).staged@, final(store).staged@, t)
                    &&& (#[trigger] old(store).staged@[t]).request_id
                        == command.decision.request_id
                    &&& old(store).staged@[t].state == StagedLaunchState::AwaitingApproval
                    &&& final(store).staged@[t].state == StagedLaunchState::Ready
                    &&& final(store).staged@[t].request_id == command.decision.request_id
                    &&& final(store).staged@[t].run_id == old(store).staged@[t].run_id
                    &&& final(store).staged@[t].staged_at_ms == old(store).staged@[t].staged_at_ms
                    &&& final(store).staged@[t].finished_at_ms
                        == old(store).staged@[t].finished_at_ms
                }
            &&& final(store).identity.runs@ == old(store).identity.runs@
            &&& final(store).graphs@ == old(store).graphs@
            &&& final(store).node_runs@ == old(store).node_runs@
        },
        (command.decision.kind == ApprovalDecisionKind::Deny && exists|t: int|
            0 <= t < old(store).staged@.len() && (#[trigger] old(store).staged@[t]).request_id
                == command.decision.request_id) ==> withdrawn(
            old(store)@,
            final(store)@,
            command.decision.request_id,
            "approval_denied"@,
            f.cancel.cancelled->Ok_0,
            *now,
        ),
{
    let s = old(store)@;
    let id = command.decision.request_id;
    lemma_find(s.approvals, id);
    lemma_found_request(s.staged, id, 0);
    assert(s.staged == old(store).staged@);
    let a = find(s.approvals, id)->0;
    let (recorded, applied) = choose|recorded: StoreView, applied: StoreView| #[trigger]
        decision_steps(s, recorded, applied, final(store)@, command, f, *now);
    assert(final(store)@.staged == final(store).staged@);
    assert(final(store)@.identity.runs == final(store).identity.runs@);
    if find_request(s.staged, id, 0) is Some {
        let t = find_request(s.staged, id, 0)->0;
        assert(old(store).staged@[t].request_id == id);
        if command.decision.kind == ApprovalDecisionKind::Deny {
            lemma_withdrawn(
                s,
                recorded,
                applied,
                id,
                "approval_denied"@,
                f.staged,
                f.cancel,
                *now,
            );
            lemma_withdrawn_of(
                recorded,
                applied,
                s,
                final(store)@,
                id,
                "approval_denied"@,
                f.cancel.cancelled->Ok_0,
                *now,
            );
        }
    }
}

proof fn lemma_withdrawn_of(
    pre: StoreView,
    post: StoreView,
    s: StoreView,
    end: StoreView,
    request_id: Uid,
    reason: Seq<char>,
    graph: CheckedGraph,
    now: Moment,
)
    requires
        withdrawn(pre, post, request_id, reason, graph, now),
        pre.staged == s.staged,
        pre.identity == s.identity,
        pre.graphs == s.graphs,
        pre.node_runs == s.node_runs,
        pre.plans == s.plans,
        pre.outputs == s.outputs,
        pre.claims == s.claims,
        pre.identity_revision == s.identity_revision,
        post.staged == end.staged,
        post.identity == end.identity,
        post.graphs == end.graphs,
        post.node_runs == end.node_runs,
        post.plans == end.plans,
        post.outputs == end.outputs,
        post.claims == end.claims,
        post.identity_revision == end.identity_revision,
    ensures
        withdrawn(s, end, request_id, reason, graph, now),
{
}

/// A grant as it is shown: its request and decision, and when it was issued,
/// spent and taken back.
pub open spec fn grant_of(
    record: CredentialGrantRecord<'_>,
    grant: crate::store::GrantRow,
    row: ApprovalRow,
) -> bool {
    &&& record.protocol_version == 1
    &&& *record.request == row.request
    &&& row.decision == Some(*record.decision)
    &&& record.decision.kind == ApprovalDecisionKind::Approve
    &&& record.issued_at_ms == grant.issued_at_ms
    &&& record.issued_at_ms == record.decision.decided_at_ms
    &&& record.consumed_at_ms == grant.consumed_at_ms
    &&& record.revoked_at_ms == grant.revoked_at_ms
    &&& record.revoked_by is Some <==> grant.revoked_by is Some
    &&& record.revoked_by is Some ==> *record.revoked_by->0 == grant.revoked_by->0
}

/// A grant is shown with the approval that it rests on.
pub proof fn law_grant_is_shown_with_its_approval(
    store: &Store,
    id: Uid,
    request_fault: &Option<ApprovalError>,
    decision_fault: &Option<ApprovalError>,
    r: Result<CredentialGrantRecord<'_>, StoreError>,
)
    requires
        call_ensures(Store::credential_grant, (store, id, request_fault, decision_fault), r),
    ensures
        r is Ok ==> *request_fault is None && *decision_fault is None,
        r is Ok ==> exists|q: int, a: int|
            #![trigger store.grants@[q], store.approvals@[a]]
            {
                &&& 0 <= q < store.grants@.len()
                &&& store.grants@[q].request_id == id
                &&& 0 <= a < store.approvals@.len()
                &&& store.approvals@[a].request.id == id
                &&& grant_of(r->Ok_0, store.grants@[q], store.approvals@[a])
            },
        (forall|q: int|
            0 <= q < store.grants@.len() ==> (#[trigger] store.grants@[q]).request_id != id)
            ==> r is Err && r->Err_0 is CredentialGrantNotFound,
{
    let s = store@;
    lemma_find(s.grants, id);
    lemma_find(s.approvals, id);
    assert(s.grants == store.grants@);
    if r is Ok {
        let q = find(s.grants, id)->0;
        let a = find(s.approvals, id)->0;
        assert(store.grants@[q].request_id == id);
        assert(store.approvals@[a].request.id == id);
    }
}

/// A grant is spent once, while its request is open and the daemon is ready, and
/// on the action that was approved and on no other.
pub proof fn law_grant_is_spent_once(
    store: &mut Store,
    id: Uid,
    action: &ApprovalAction,
    f: &GrantFindings,
    now: &Moment,
    r: Result<CredentialGrantRecord<'_>, StoreError>,
)
    requires
        call_ensures(Store::consume_credential_grant, (store, id, action, f, now), r),
    ensures
        r is Err ==> *final(store) == *old(store),
        r is Ok ==> exists|q: int, a: int|
            #![trigger old(store).grants@[q], old(store).approvals@[a]]
            {
                let approved = old(store).approvals@[a].request.action;
                &&& changed_at(old(store).grants@, final(store).grants@, q)
                &&& old(store).grants@[q].request_id == id
                &&& old(store).grants@[q].consumed_at_ms is None
                &&& old(store).grants@[q].revoked_at_ms is None
                &&& old(store).grants@[q].issued_at_ms <= now.ms
                &&& final(store).grants@[q].request_id == id
                &&& final(store).grants@[q].consumed_at_ms == Some(now.ms)
                &&& final(store).grants@[q].revoked_at_ms is None
                &&& final(store).grants@[q].issued_at_ms == old(store).grants@[q].issued_at_ms
                &&& 0 <= a < old(store).approvals@.len()
                &&& old(store).approvals@[a].request.id == id
                &&& old(store).approvals@[a].request.created_at_ms <= now.ms
                &&& now.ms < old(store).approvals@[a].request.expires_at_ms
                &&& grant_of(r->Ok_0, final(store).grants@[q], old(store).approvals@[a])
                &&& action.agent_instance_id == approved.agent_instance_id
                &&& action.role_id == approved.role_id
                &&& action.action_key@ == approved.action_key@
                &&& action.scope.project_id == approved.scope.project_id
                &&& action.scope.run_id == approved.scope.run_id
                &&& action.scope.credential_reference_ids@
                    == approved.scope.credential_reference_ids@
                &&& action.requested_policy == approved.requested_policy
                &&& approved.scope.credential_binding is Some
                &&& action.scope.credential_binding is Some
                &&& action.scope.credential_binding->0@ == approved.scope.credential_binding->0@
            },
        r is Ok ==> old(store).lifecycle@ == "ready"@ && told(
            old(store).events@,
            final(store).events@,
            "credential.grant_consumed"@,
            fields().push(("request_id"@, json_uid(id))).push(
                ("run_id"@, json_uid_option(action.scope.run_id)),
            ),
            *now,
        ),
        r is Ok ==> final(store).approvals@ == old(store).approvals@ && final(store).staged@
            == old(store).staged@ && final(store).identity.runs@ == old(store).identity.runs@
            && final(store).claims@ == old(store).claims@,
{
    let s = old(store)@;
    lemma_find(s.grants, id);
    lemma_find(s.approvals, id);
    if r is Ok {
        let q = find(s.grants, id)->0;
        let a = find(s.approvals, id)->0;
        assert(old(store).grants@[q].request_id == id);
        assert(old(store).approvals@[a].request.id == id);
        assert(final(store)@.identity.runs == final(store).identity.runs@);
        let approved = s.approvals[a].request.action;
        assert(approved@ == action@);
        assert(approved@.credential_binding == Some(approved.scope.credential_binding->0@));
        assert(action@.credential_binding == Some(action.scope.credential_binding->0@));
    }
}

/// A grant is taken back by a named actor, once, while it is unspent and its
/// request open. A launch that waited for it is withdrawn.
#[verifier::rlimit(30)]
pub proof fn law_grant_is_taken_back_once(
    store: &mut Store,
    id: Uid,
    command: RevokeCredentialGrantCommand,
    f: &StagedFindings,
    findings: CancelFindings,
    now: &Moment,
    r: Result<CredentialGrantRecord<'_>, StoreError>,
)
    requires
        call_ensures(
            Store::revoke_credential_grant,
            (store, id, command, f, findings, now),
            r,
        ),
    ensures
        r is Err ==> *final(store) == *old(store),
        r is Ok ==> exists|q: int, a: int|
            #![trigger old(store).grants@[q], old(store).approvals@[a]]
            {
                &&& changed_at(old(store).grants@, final(store).grants@, q)
                &&& old(store).grants@[q].request_id == id
                &&& old(store).grants@[q].consumed_at_ms is None
                &&& old(store).grants@[q].revoked_at_ms is None
                &&& final(store).grants@[q].request_id == id
                &&& final(store).grants@[q].consumed_at_ms is None
                &&& final(store).grants@[q].revoked_at_ms == Some(now.ms)
                &&& final(store).grants@[q].revoked_by is Some
                &&& final(store).grants@[q].revoked_by->0@ == command.actor@
                &&& final(store).grants@[q].issued_at_ms == old(store).grants@[q].issued_at_ms
                &&& 0 <= a < old(store).approvals@.len()
                &&& old(store).approvals@[a].request.id == id
                &&& grant_of(r->Ok_0, final(store).grants@[q], old(store).approvals@[a])
            },
        r is Ok ==> final(store).approvals@ == old(store).approvals@ && final(store).claims@
            == old(store).claims@,
        r is Ok ==> final(store).staged@ == old(store).staged@ || withdrawn(
            old(store)@,
            final(store)@,
            id,
            "credential_grant_revoked"@,
            findings.cancelled->Ok_0,
            *now,
        ),
        r is Ok ==> final(store).events@.len() > old(store).events@.len() && final(store).events@[old(store).events@.len() as int].event_type@ == "credential.grant_revoked"@,
{
    let s = old(store)@;
    lemma_find(s.grants, id);
    lemma_find(s.approvals, id);
    if r is Ok {
        let q = find(s.grants, id)->0;
        let a = find(s.approvals, id)->0;
        assert(old(store).grants@[q].request_id == id);
        assert(old(store).approvals@[a].request.id == id);
        match cancel_target(s, id, "credential_grant_revoked"@, *f)->Ok_0 {
            None => {},
            Some(t) => {
                let middle = StoreView {
                    grants: final(store)@.grants,
                    events: final(store)@.events.drop_last(),
                    ..s
                };
                lemma_same_search(s.grants, middle.grants, id, 0);
                lemma_withdrawn(
                    s,
                    middle,
                    final(store)@,
                    id,
                    "credential_grant_revoked"@,
                    *f,
                    findings,
                    *now,
                );
                lemma_withdrawn_of(
                    middle,
                    final(store)@,
                    s,
                    final(store)@,
                    id,
                    "credential_grant_revoked"@,
                    findings.cancelled->Ok_0,
                    *now,
                );
            },
        }
    }
}

proof fn lemma_same_search(
    pre: Seq<crate::store::GrantRow>,
    post: Seq<crate::store::GrantRow>,
    id: Uid,
    from: int,
)
    requires
        from >= 0,
        pre.len() == post.len(),
        forall|i: int| 0 <= i < pre.len() ==> (#[trigger] post[i]).request_id == pre[i].request_id,
    ensures
        crate::uid::find_from(pre, id, from) == crate::uid::find_from(post, id, from),
    decreases pre.len() - from,
{
    if from < pre.len() {
        assert(post[from].request_id == pre[from].request_id);
        lemma_same_search(pre, post, id, from + 1);
    }
}

/// A launch has run out: its request is past its time, and is either undecided or
/// decided without the launch having begun.
pub open spec fn run_out(row: StagedRow, approvals: Seq<ApprovalRow>, now: u64) -> bool {
    exists|a: int|
        {
            &&& 0 <= a < approvals.len()
            &&& (#[trigger] approvals[a]).request.id == row.request_id
            &&& approvals[a].request.expires_at_ms <= now
            &&& (row.state == StagedLaunchState::AwaitingApproval && approvals[a].decision is None)
                || (row.state == StagedLaunchState::Ready && approvals[a].decision is Some)
        }
}

/// Every launch that is found expired has run out, and the earliest staged come
/// first.
pub proof fn law_expired_launches_have_run_out(
    store: &Store,
    now: u64,
    r: Result<Vec<ExpiredLaunch>, StoreError>,
)
    requires
        call_ensures(Store::expire, (store, now), r),
    ensures
        r is Ok <==> now <= 0x7fff_ffff_ffff_ffff,
        r is Ok ==> forall|k: int|
            0 <= k < r->Ok_0@.len() ==> exists|t: int|
                0 <= t < store.staged@.len() && (#[trigger] store.staged@[t]).request_id == (
                #[trigger] r->Ok_0@[k]).request_id && store.staged@[t].staged_at_ms
                    == r->Ok_0@[k].staged_at_ms && run_out(
                    store.staged@[t],
                    store.approvals@,
                    now,
                ),
        r is Ok ==> forall|i: int, j: int|
            0 <= i < j < r->Ok_0@.len() ==> (#[trigger] r->Ok_0@[i]).staged_at_ms <= (
            #[trigger] r->Ok_0@[j]).staged_at_ms,
{
    if r is Ok {
        let n = store@.staged.len();
        let all = expired_launches(store@.staged, store@.approvals, now, n);
        lemma_expired(store@.staged, store@.approvals, now, n);
        broadcast use vstd::seq_lib::group_to_multiset_ensures;
        assert(store@.staged == store.staged@);
        assert forall|k: int| 0 <= k < r->Ok_0@.len() implies exists|t: int|
            0 <= t < store.staged@.len() && (#[trigger] store.staged@[t]).request_id == (
            #[trigger] r->Ok_0@[k]).request_id && store.staged@[t].staged_at_ms
                == r->Ok_0@[k].staged_at_ms && run_out(
                store.staged@[t],
                store.approvals@,
                now,
            ) by {
            let launch = r->Ok_0@[k];
            assert(r->Ok_0@.contains(launch));
            assert(r->Ok_0@.to_multiset().count(launch) > 0);
            assert(all.contains(launch));
            let m = choose|m: int| 0 <= m < all.len() && all[m] == launch;
            assert(out(store@.staged, store@.approvals, now, all[m]));
            let t = choose|t: int|
                0 <= t < store@.staged.len() && (#[trigger] store@.staged[t]).request_id
                    == launch.request_id && store@.staged[t].staged_at_ms == launch.staged_at_ms
                    && run_out(store@.staged[t], store@.approvals, now);
            assert(store.staged@[t].request_id == launch.request_id);
        }
        assert forall|i: int, j: int| 0 <= i < j < r->Ok_0@.len() implies (
        #[trigger] r->Ok_0@[i]).staged_at_ms <= (#[trigger] r->Ok_0@[j]).staged_at_ms by {
            assert(crate::expiry::before_or_same(r->Ok_0@[i], r->Ok_0@[j]));
        }
    }
}

/// Every launch that has run out is found expired.
pub proof fn law_launches_that_have_run_out_expire(
    store: &Store,
    now: u64,
    r: Result<Vec<ExpiredLaunch>, StoreError>,
    t: int,
)
    requires
        call_ensures(Store::expire, (store, now), r),
        r is Ok,
        0 <= t < store.staged@.len(),
        run_out(store.staged@[t], store.approvals@, now),
        forall|a: int, b: int|
            #![trigger store.approvals@[a], store.approvals@[b]]
            0 <= a < store.approvals@.len() && 0 <= b < store.approvals@.len()
                && store.approvals@[a].request.id == store.approvals@[b].request.id ==> a == b,
    ensures
        exists|k: int|
            0 <= k < r->Ok_0@.len() && (#[trigger] r->Ok_0@[k]).request_id
                == store.staged@[t].request_id && r->Ok_0@[k].staged_at_ms
                == store.staged@[t].staged_at_ms,
{
    let s = store@;
    let n = s.staged.len();
    let row = s.staged[t];
    lemma_find(s.approvals, row.request_id);
    let a = choose|a: int|
        {
            &&& 0 <= a < store.approvals@.len()
            &&& (#[trigger] store.approvals@[a]).request.id == row.request_id
            &&& store.approvals@[a].request.expires_at_ms <= now
            &&& (row.state == StagedLaunchState::AwaitingApproval
                && store.approvals@[a].decision is None) || (row.state == StagedLaunchState::Ready
                && store.approvals@[a].decision is Some)
        };
    assert(s.approvals[a].request.id == row.request_id);
    assert(store.approvals@[find(s.approvals, row.request_id)->0].request.id == row.request_id);
    assert(crate::expiry::expired(row, s.approvals, now));
    lemma_expires(s.staged, s.approvals, now, n, t);
    let all = expired_launches(s.staged, s.approvals, now, n);
    let launch = ExpiredLaunch { staged_at_ms: row.staged_at_ms, request_id: row.request_id };
    broadcast use vstd::seq_lib::group_to_multiset_ensures;
    assert(all.contains(launch));
    assert(all.to_multiset().count(launch) > 0);
    assert(r->Ok_0@.contains(launch));
    let k = choose|k: int| 0 <= k < r->Ok_0@.len() && r->Ok_0@[k] == launch;
    assert(r->Ok_0@[k].request_id == row.request_id);
}

spec fn out(
    rows: Seq<StagedRow>,
    approvals: Seq<ApprovalRow>,
    now: u64,
    launch: ExpiredLaunch,
) -> bool {
    exists|t: int|
        0 <= t < rows.len() && (#[trigger] rows[t]).request_id == launch.request_id
            && rows[t].staged_at_ms == launch.staged_at_ms && run_out(rows[t], approvals, now)
}

proof fn lemma_expired(rows: Seq<StagedRow>, approvals: Seq<ApprovalRow>, now: u64, n: nat)
    requires
        n <= rows.len(),
    ensures
        forall|m: int|
            0 <= m < expired_launches(rows, approvals, now, n).len() ==> out(
                rows,
                approvals,
                now,
                #[trigger] expired_launches(rows, approvals, now, n)[m],
            ),
    decreases n,
{
    if n > 0 {
        lemma_expired(rows, approvals, now, (n - 1) as nat);
        let before = expired_launches(rows, approvals, now, (n - 1) as nat);
        let all = expired_launches(rows, approvals, now, n);
        let row = rows[n - 1];
        lemma_find(approvals, row.request_id);
        assert forall|m: int| 0 <= m < all.len() implies out(
            rows,
            approvals,
            now,
            #[trigger] all[m],
        ) by {
            if m < before.len() {
                assert(all[m] == before[m]);
            } else {
                let a = find(approvals, row.request_id)->0;
                assert(approvals[a].request.id == row.request_id);
                assert(run_out(rows[n - 1], approvals, now));
            }
        }
    }
}

proof fn lemma_expires(
    rows: Seq<StagedRow>,
    approvals: Seq<ApprovalRow>,
    now: u64,
    n: nat,
    t: int,
)
    requires
        0 <= t < n <= rows.len(),
        crate::expiry::expired(rows[t], approvals, now),
    ensures
        expired_launches(rows, approvals, now, n).contains(
            ExpiredLaunch {
                staged_at_ms: rows[t].staged_at_ms,
                request_id: rows[t].request_id,
            },
        ),
    decreases n,
{
    let before = expired_launches(rows, approvals, now, (n - 1) as nat);
    let all = expired_launches(rows, approvals, now, n);
    let launch = ExpiredLaunch {
        staged_at_ms: rows[t].staged_at_ms,
        request_id: rows[t].request_id,
    };
    if t == n - 1 {
        assert(all[before.len() as int] == launch);
    } else {
        lemma_expires(rows, approvals, now, (n - 1) as nat, t);
        let m = choose|m: int| 0 <= m < before.len() && before[m] == launch;
        assert(all[m] == launch);
    }
}

} // verus!
