use crate::approval::ApprovalRow;
use crate::consistency::consistent;
use crate::error::{Refusal, StoreError};
use crate::graph::{AdapterFailure, CheckedGraph, OutputRow};
use crate::identity::{CatalogView, IdentityCatalog, Moment, NormalizedRunState};
use crate::launch::{PlanRow, ProviderLaunchIdentity};
use crate::m3::{M3Catalog, M3View};
use crate::protocol::{EventEnvelope, StagedLaunchState, PROTOCOL_VERSION};
use crate::uid::{ApprovalRequestId, GraphNodeId, GraphRunId, Keyed, RunId, Uid};
use vstd::prelude::*;

verus! {

/// The largest integer that a column of the durable store can hold.
pub const MAX_STORED: u64 = 0x7fff_ffff_ffff_ffff;

/// What is recorded of the identity selected for a run: nothing, something that
/// cannot be read (and why), or the selection.
#[derive(Clone, Debug, PartialEq, Eq)]
pub enum LaunchRecord {
    Absent,
    Malformed(String),
    Selected(ProviderLaunchIdentity),
}

/// An execution under the identifier and the revision with which it is stored.
#[derive(Clone, Debug, PartialEq, Eq)]
pub struct GraphRow {
    pub execution_id: GraphRunId,
    pub revision: u64,
    pub graph: CheckedGraph,
    pub updated_at: String,
}

/// One attempt at a graph node.
#[derive(Clone, Debug, PartialEq, Eq)]
pub struct NodeRun {
    pub execution_id: GraphRunId,
    pub node_id: GraphNodeId,
    pub run_id: RunId,
    pub attempt: u64,
    pub created_at: String,
    pub finished_at: Option<String>,
    pub terminal_state: Option<NormalizedRunState>,
    pub failure: Option<AdapterFailure>,
    pub launch: LaunchRecord,
}

/// A single-use authorization to read one credential for one run.
#[derive(Clone, Debug, PartialEq, Eq)]
pub struct GrantRow {
    pub request_id: ApprovalRequestId,
    pub issued_at_ms: u64,
    pub consumed_at_ms: Option<u64>,
    pub revoked_at_ms: Option<u64>,
    pub revoked_by: Option<String>,
}

/// A launch that waits for, or has had, the approval of its credential use.
#[derive(Clone, Debug, PartialEq, Eq)]
pub struct StagedRow {
    pub run_id: RunId,
    pub request_id: ApprovalRequestId,
    pub state: StagedLaunchState,
    pub staged_at_ms: u64,
    pub finished_at_ms: Option<u64>,
    pub cancel_reason: Option<String>,
}

#[derive(Clone, Debug, PartialEq, Eq)]
pub struct ClaimRow {
    pub run_id: RunId,
    pub request_id: ApprovalRequestId,
    pub claimed_at_ms: u64,
}

#[derive(Clone, Debug, PartialEq, Eq)]
pub struct CheckpointRow {
    pub checkpoint_id: Uid,
    pub revision: u64,
    pub event_sequence: u64,
    pub reason: String,
    pub created_at: String,
}

/// The daemon's whole durable state. Each operation that changes it is one
/// transaction: it either takes effect as a whole or is refused and leaves the
/// state as it was.
#[derive(Clone, Debug, PartialEq, Eq)]
pub struct Store {
    pub daemon_id: Uid,
    pub revision: u64,
    pub lifecycle: String,
    pub identity_revision: u64,
    pub identity: IdentityCatalog,
    pub m3_revision: u64,
    pub m3: M3Catalog,
    /// As they were read, by their identifiers; those entered since then follow.
    pub graphs: Vec<GraphRow>,
    pub node_runs: Vec<NodeRun>,
    pub outputs: Vec<OutputRow>,
    pub approvals: Vec<ApprovalRow>,
    pub grants: Vec<GrantRow>,
    pub plans: Vec<PlanRow>,
    pub staged: Vec<StagedRow>,
    pub claims: Vec<ClaimRow>,
    pub events: Vec<EventEnvelope>,
    pub checkpoints: Vec<CheckpointRow>,
}

/// The state as mathematics sees it.
#[verifier::ext_equal]
pub ghost struct StoreView {
    pub daemon_id: Uid,
    pub revision: u64,
    pub lifecycle: Seq<char>,
    pub identity_revision: u64,
    pub identity: CatalogView,
    pub m3_revision: u64,
    pub m3: M3View,
    pub graphs: Seq<GraphRow>,
    pub node_runs: Seq<NodeRun>,
    pub outputs: Seq<OutputRow>,
    pub approvals: Seq<ApprovalRow>,
    pub grants: Seq<GrantRow>,
    pub plans: Seq<PlanRow>,
    pub staged: Seq<StagedRow>,
    pub claims: Seq<ClaimRow>,
    pub events: Seq<EventEnvelope>,
    pub checkpoints: Seq<CheckpointRow>,
}

impl View for Store {
    type V = StoreView;

    open spec fn view(&self) -> StoreView {
        StoreView {
            daemon_id: self.daemon_id,
            revision: self.revision,
            lifecycle: self.lifecycle@,
            identity_revision: self.identity_revision,
            identity: self.identity@,
            m3_revision: self.m3_revision,
            m3: self.m3@,
            graphs: self.graphs@,
            node_runs: self.node_runs@,
            outputs: self.outputs@,
            approvals: self.approvals@,
            grants: self.grants@,
            plans: self.plans@,
            staged: self.staged@,
            claims: self.claims@,
            events: self.events@,
            checkpoints: self.checkpoints@,
        }
    }
}

impl Keyed for GraphRow {
    open spec fn key(&self) -> Uid {
        self.execution_id
    }

    fn id(&self) -> (r: Uid) {
        self.execution_id
    }
}

impl Keyed for NodeRun {
    open spec fn key(&self) -> Uid {
        self.run_id
    }

    fn id(&self) -> (r: Uid) {
        self.run_id
    }
}

impl Keyed for GrantRow {
    open spec fn key(&self) -> Uid {
        self.request_id
    }

    fn id(&self) -> (r: Uid) {
        self.request_id
    }
}

impl Keyed for StagedRow {
    open spec fn key(&self) -> Uid {
        self.run_id
    }

    fn id(&self) -> (r: Uid) {
        self.run_id
    }
}

impl Keyed for ClaimRow {
    open spec fn key(&self) -> Uid {
        self.run_id
    }

    fn id(&self) -> (r: Uid) {
        self.run_id
    }
}

/// The number of the next event of a journal: one more than that of the last.
pub open spec fn next_sequence(events: Seq<EventEnvelope>) -> nat {
    if events.len() == 0 {
        1
    } else {
        (events.last().sequence + 1) as nat
    }
}

/// Whether `n` more events can be numbered.
pub open spec fn journal_room(events: Seq<EventEnvelope>, n: nat) -> bool {
    next_sequence(events) + n <= MAX_STORED + 1
}

/// An event as the journal holds it. Its identifier is random.
pub open spec fn event_is(
    event: EventEnvelope,
    sequence: nat,
    kind: Seq<char>,
    payload: Seq<char>,
    now: Moment,
) -> bool {
    &&& event.protocol_version == PROTOCOL_VERSION
    &&& event.sequence == sequence
    &&& event.event_type@ == kind
    &&& event.payload_json@ == payload
    &&& event.occurred_at@ == now.text@
}

/// The journal `post` is `pre` with one event added at its end.
pub open spec fn journaled(
    pre: Seq<EventEnvelope>,
    post: Seq<EventEnvelope>,
    kind: Seq<char>,
    payload: Seq<char>,
    now: Moment,
) -> bool {
    &&& post.len() == pre.len() + 1
    &&& post.drop_last() == pre
    &&& event_is(post.last(), next_sequence(pre), kind, payload, now)
}

/// The journal `post` is `pre` with these events added at its end, one after the
/// other; each is given by its kind and its payload.
pub open spec fn journaled_all(
    pre: Seq<EventEnvelope>,
    post: Seq<EventEnvelope>,
    notes: Seq<(Seq<char>, Seq<char>)>,
    now: Moment,
) -> bool {
    &&& post.len() == pre.len() + notes.len()
    &&& post.take(pre.len() as int) == pre
    &&& forall|i: int|
        0 <= i < notes.len() ==> event_is(
            #[trigger] post[pre.len() + i],
            (next_sequence(pre) + i) as nat,
            notes[i].0,
            notes[i].1,
            now,
        )
}

pub proof fn lemma_journaled_one_more(
    pre: Seq<EventEnvelope>,
    middle: Seq<EventEnvelope>,
    post: Seq<EventEnvelope>,
    notes: Seq<(Seq<char>, Seq<char>)>,
    kind: Seq<char>,
    payload: Seq<char>,
    now: Moment,
)
    requires
        journaled_all(pre, middle, notes, now),
        journaled(middle, post, kind, payload, now),
    ensures
        journaled_all(pre, post, notes.push((kind, payload)), now),
        next_sequence(middle) == next_sequence(pre) + notes.len(),
{
    if notes.len() == 0 {
        assert(middle =~= middle.take(pre.len() as int));
    } else {
        let last = notes.len() - 1;
        assert(event_is(
            middle[pre.len() + last],
            (next_sequence(pre) + last) as nat,
            notes[last].0,
            notes[last].1,
            now,
        ));
    }
    let all = notes.push((kind, payload));
    assert(post.take(pre.len() as int) =~= middle.take(pre.len() as int));
    assert forall|i: int| 0 <= i < all.len() implies event_is(
        #[trigger] post[pre.len() + i],
        (next_sequence(pre) + i) as nat,
        all[i].0,
        all[i].1,
        now,
    ) by {
        if i < notes.len() {
            assert(middle[pre.len() + i] == post[pre.len() + i]);
        }
    }
}

/// The number of the next event after some were added.
pub proof fn lemma_next_after(
    pre: Seq<EventEnvelope>,
    post: Seq<EventEnvelope>,
    notes: Seq<(Seq<char>, Seq<char>)>,
    now: Moment,
)
    requires
        journaled_all(pre, post, notes, now),
    ensures
        next_sequence(post) == next_sequence(pre) + notes.len(),
{
    if notes.len() == 0 {
        assert(post =~= post.take(pre.len() as int));
    } else {
        let last = notes.len() - 1;
        assert(event_is(
            post[pre.len() + last],
            (next_sequence(pre) + last) as nat,
            notes[last].0,
            notes[last].1,
            now,
        ));
    }
}

/// Why a revision cannot be followed by another: there is no larger number, or
/// none that the store can hold.
pub open spec fn bump_refusal(actual: u64) -> Option<Refusal> {
    if actual == u64::MAX {
        Some(Refusal::RevisionOverflow)
    } else if actual >= MAX_STORED {
        Some(Refusal::Database)
    } else {
        None
    }
}

/// The revision after `actual`.
pub fn next_revision(actual: u64) -> (r: Result<u64, StoreError>)
    ensures
        match r {
            Ok(next) => bump_refusal(actual) is None && next == actual + 1,
            Err(error) => bump_refusal(actual) == Some(error@),
        },
{
    if actual == u64::MAX {
        Err(StoreError::RevisionOverflow)
    } else if actual >= MAX_STORED {
        Err(out_of_range())
    } else {
        Ok(actual + 1)
    }
}

/// The refusal of a value that the durable store cannot hold.
pub fn out_of_range() -> (r: StoreError)
    ensures
        r@ == Refusal::Database,
        r is Database,
        r->Database_0@ == "out of range integral type conversion attempted"@,
{
    StoreError::Database("out of range integral type conversion attempted".to_owned())
}

/// The refusal of a row that breaks a constraint of the durable store.
pub fn constraint_failed() -> (r: StoreError)
    ensures
        r@ == Refusal::Database,
        r is Database,
        r->Database_0@ == "constraint failed"@,
{
    StoreError::Database("constraint failed".to_owned())
}

/// The state of a daemon that has never run.
pub open spec fn fresh(s: StoreView, daemon_id: Uid) -> bool {
    &&& s.daemon_id == daemon_id
    &&& s.revision == 0
    &&& s.lifecycle == "starting"@
    &&& s.identity_revision == 0
    &&& s.m3_revision == 0
    &&& s.identity =~= (CatalogView {
        credential_references: Seq::empty(),
        agent_providers: Seq::empty(),
        model_providers: Seq::empty(),
        accounts: Seq::empty(),
        models: Seq::empty(),
        agent_instances: Seq::empty(),
        projects: Seq::empty(),
        roles: Seq::empty(),
        sessions: Seq::empty(),
        runs: Seq::empty(),
    })
    &&& s.m3 =~= (M3View {
        pet_profiles: Seq::empty(),
        pet_assignments: Seq::empty(),
        rooms: Seq::empty(),
        meetings: Seq::empty(),
        decision_baselines: Seq::empty(),
        documents: Seq::empty(),
        knowledge_deliveries: Seq::empty(),
        costs: Seq::empty(),
    })
    &&& s.graphs.len() == 0
    &&& s.node_runs.len() == 0
    &&& s.outputs.len() == 0
    &&& s.approvals.len() == 0
    &&& s.grants.len() == 0
    &&& s.plans.len() == 0
    &&& s.staged.len() == 0
    &&& s.claims.len() == 0
    &&& s.events.len() == 0
    &&& s.checkpoints.len() == 0
}

impl Store {
    /// The state of a daemon that has never run.
    pub fn create(daemon_id: Uid) -> (r: Self)
        ensures
            fresh(r@, daemon_id),
            consistent(r@),
    {
        Store {
            daemon_id,
            revision: 0,
            lifecycle: "starting".to_owned(),
            identity_revision: 0,
            identity: IdentityCatalog::empty(),
            m3_revision: 0,
            m3: M3Catalog::empty(),
            graphs: Vec::new(),
            node_runs: Vec::new(),
            outputs: Vec::new(),
            approvals: Vec::new(),
            grants: Vec::new(),
            plans: Vec::new(),
            staged: Vec::new(),
            claims: Vec::new(),
            events: Vec::new(),
            checkpoints: Vec::new(),
        }
    }

    /// Whether `n` more events can be numbered.
    pub(crate) fn has_journal_room(&self, n: u64) -> (r: bool)
        ensures
            r == journal_room(self@.events, n as nat),
    {
        if n > MAX_STORED {
            false
        } else if self.events.len() == 0 {
            true
        } else {
            let last: u64 = self.events[self.events.len() - 1].sequence;
            last <= MAX_STORED - n
        }
    }

    /// Adds an event at the end of the journal and gives its number.
    pub(crate) fn insert_event(&mut self, event_type: &str, payload: String, now: &Moment) -> (r: u64)
        requires
            journal_room(old(self)@.events, 1),
        ensures
            r == next_sequence(old(self)@.events),
            final(self)@ == (StoreView { events: final(self)@.events, ..old(self)@ }),
            journaled(old(self)@.events, final(self)@.events, event_type@, payload@, *now),
    {
        let sequence: u64 = if self.events.len() == 0 {
            1
        } else {
            self.events[self.events.len() - 1].sequence + 1
        };
        let event = EventEnvelope {
            protocol_version: PROTOCOL_VERSION,
            event_id: Uid::new(),
            sequence,
            event_type: event_type.to_owned(),
            occurred_at: now.text.clone(),
            payload_json: payload,
        };
        self.events.push(event);
        assert(self@.events.drop_last() =~= old(self)@.events);
        sequence
    }
}

} // verus!
