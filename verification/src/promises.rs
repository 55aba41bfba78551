//! What callers can rely on, said of the operations themselves: each law takes
//! the arguments and the result of a call and says how they relate.
use crate::identity::{EntityLifecycle, EntityMetadata, Moment, NormalizedRunState, Run, Session};
use crate::json::object;
use crate::protocol::EventEnvelope;
use crate::store::Store;
use crate::uid::Uid;
use vstd::prelude::*;

pub mod aftermath;
pub mod approving;
pub mod binding;
pub mod cataloguing;
pub mod checking;
pub mod confining;
pub mod documents;
pub mod ending;
pub mod executing;
pub mod guarding;
pub mod joining;
pub mod launching;
pub mod likeness;
pub mod living;
pub mod owing;
pub mod permitting;
pub mod progress;
pub mod recovering;
pub mod running;
pub mod sealing;
pub mod starting;
pub mod supervising;
pub mod wording;

verus! {

/// A journal with one event more, of this kind and at this time. Events before
/// it stay, and it has the next number.
pub open spec fn noted(pre: Seq<EventEnvelope>, post: Seq<EventEnvelope>, kind: Seq<char>, now: Moment) -> bool {
    &&& post.len() == pre.len() + 1
    &&& forall|i: int| 0 <= i < pre.len() ==> #[trigger] post[i] == pre[i]
    &&& post.last().event_type@ == kind
    &&& post.last().occurred_at@ == now.text@
    &&& post.last().protocol_version == 1
    &&& post.last().sequence == (if pre.len() == 0 {
        1
    } else {
        pre.last().sequence + 1
    })
}

/// One event more, as [`noted`], whose payload is the JSON object of these members.
pub open spec fn told(
    pre: Seq<EventEnvelope>,
    post: Seq<EventEnvelope>,
    kind: Seq<char>,
    members: Seq<(Seq<char>, Seq<char>)>,
    now: Moment,
) -> bool {
    &&& noted(pre, post, kind, now)
    &&& post.last().payload_json@ == object(members)
}

/// The metadata of something that the daemon entered at this time for its local
/// user.
pub open spec fn entered_now(m: EntityMetadata, id: Uid, source: Seq<char>, now: Moment) -> bool {
    &&& m.id == id
    &&& m.revision == 0
    &&& m.created_at@ == now.text@
    &&& m.updated_at@ == now.text@
    &&& m.provenance.source_kind@ == "local_user"@
    &&& m.provenance.source_id@ == source
    &&& m.provenance.recorded_by@ == "bastet-daemon"@
    &&& m.lifecycle == EntityLifecycle::Active
}

/// The metadata of something that was changed at this time: one revision on, and
/// otherwise as it was.
pub open spec fn touched(pre: EntityMetadata, post: EntityMetadata, now: Moment) -> bool {
    &&& post.id == pre.id
    &&& post.revision == pre.revision + 1
    &&& post.updated_at@ == now.text@
    &&& post.created_at@ == pre.created_at@
    &&& post.provenance == pre.provenance
    &&& post.lifecycle == pre.lifecycle
}

/// A run that came into this state now, and is otherwise the same.
pub open spec fn moved(pre: Run, post: Run, state: NormalizedRunState, now: Moment) -> bool {
    &&& touched(pre.metadata, post.metadata, now)
    &&& post.state == state
    &&& post.session_id == pre.session_id
    &&& post.model_id == pre.model_id
}

/// A session that got this name now, and is otherwise the same.
pub open spec fn named(pre: Session, post: Session, name: Seq<char>, now: Moment) -> bool {
    &&& touched(pre.metadata, post.metadata, now)
    &&& post.agent_instance_id == pre.agent_instance_id
    &&& post.project_id == pre.project_id
    &&& post.provider_session_id is Some
    &&& post.provider_session_id->0@ == name
}

/// A row was added at the end, and the rows before it stay.
pub open spec fn one_more<T>(pre: Seq<T>, post: Seq<T>) -> bool {
    &&& post.len() == pre.len() + 1
    &&& forall|i: int| 0 <= i < pre.len() ==> #[trigger] post[i] == pre[i]
}

/// One row was changed, and the others stay.
pub open spec fn changed_at<T>(pre: Seq<T>, post: Seq<T>, k: int) -> bool {
    &&& 0 <= k < pre.len()
    &&& post.len() == pre.len()
    &&& forall|i: int| 0 <= i < pre.len() && i != k ==> #[trigger] post[i] == pre[i]
}

/// Runs and what led to them are as they were.
pub open spec fn runs_kept(pre: Store, post: Store) -> bool {
    &&& post.daemon_id == pre.daemon_id
    &&& post.revision == pre.revision
    &&& post.lifecycle@ == pre.lifecycle@
    &&& post.identity_revision == pre.identity_revision
    &&& post.identity.runs@ == pre.identity.runs@
    &&& post.identity.sessions@ == pre.identity.sessions@
    &&& post.node_runs@ == pre.node_runs@
    &&& post.outputs@ == pre.outputs@
    &&& launches_kept(pre, post)
}

/// Whatever the daemon works on is as it was.
pub open spec fn work_kept(pre: Store, post: Store) -> bool {
    &&& post.daemon_id == pre.daemon_id
    &&& post.identity_revision == pre.identity_revision
    &&& post.identity.runs@ == pre.identity.runs@
    &&& post.identity.sessions@ == pre.identity.sessions@
    &&& post.identity@ == pre.identity@
    &&& post.m3_revision == pre.m3_revision
    &&& post.m3@ == pre.m3@
    &&& post.graphs@ == pre.graphs@
    &&& post.node_runs@ == pre.node_runs@
    &&& post.outputs@ == pre.outputs@
    &&& office_kept(pre, post)
    &&& launches_kept(pre, post)
}

/// Requests, grants and launches are as they were.
pub open spec fn launches_kept(pre: Store, post: Store) -> bool {
    &&& post.approvals@ == pre.approvals@
    &&& post.grants@ == pre.grants@
    &&& post.plans@ == pre.plans@
    &&& post.staged@ == pre.staged@
    &&& post.claims@ == pre.claims@
}

/// Pets, meetings and decisions are as they were.
pub open spec fn office_kept(pre: Store, post: Store) -> bool {
    &&& post.m3.office.pet_assignments@ == pre.m3.office.pet_assignments@
    &&& post.m3.office.pet_profiles@ == pre.m3.office.pet_profiles@
    &&& post.m3.office.rooms@ == pre.m3.office.rooms@
    &&& post.m3.meetings.meetings@ == pre.m3.meetings.meetings@
    &&& post.m3.meetings.decision_baselines@ == pre.m3.meetings.decision_baselines@
}

} // verus!
