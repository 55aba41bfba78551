//! The daemon's own life: getting ready, checkpoints, pauses and the end.
use crate::error::StoreError;
use crate::identity::{Moment, NormalizedRunState, Run};
use crate::json::json_string;
use crate::lifecycle::{is_run_active, later_events};
use crate::promises::{one_more, told, work_kept};
use crate::protocol::{
    lifecycle_name, parse_lifecycle, CheckpointCommand, CheckpointReceipt, DaemonLifecycle,
    DaemonSnapshot, EventEnvelope,
};
use crate::store::Store;
use vstd::prelude::*;

verus! {

/// A run that a provider may be working on.
pub open spec fn underway(run: Run) -> bool {
    ||| run.state == NormalizedRunState::Running
    ||| run.state == NormalizedRunState::Cancelling
    ||| run.state == NormalizedRunState::Recovering
    ||| (run.state == NormalizedRunState::Starting && run.started_at is Some)
}

/// A run is active exactly while a provider may be working on it.
pub proof fn law_active_runs_are_those_underway(run: &Run, r: bool)
    requires
        call_ensures(is_run_active, (run,), r),
    ensures
        r <==> underway(*run),
{
}

/// Whether the next revision and the next event can still be numbered.
pub open spec fn can_go_on(s: Store) -> bool {
    &&& s.revision < 0x7fff_ffff_ffff_ffff
    &&& s.events@.len() > 0 ==> s.events@.last().sequence < 0x7fff_ffff_ffff_ffff
}

/// A checkpoint was taken for this command: the daemon is now in this state, one
/// revision on, and the checkpoint and its event carry the reason that was given.
pub open spec fn checkpoint_taken(
    pre: Store,
    post: Store,
    command: CheckpointCommand,
    state: Seq<char>,
    kind: Seq<char>,
    now: Moment,
    receipt: CheckpointReceipt,
) -> bool {
    &&& post.lifecycle@ == state
    &&& post.revision == pre.revision + 1
    &&& one_more(pre.checkpoints@, post.checkpoints@)
    &&& post.checkpoints@.last().checkpoint_id == receipt.checkpoint_id
    &&& post.checkpoints@.last().revision == post.revision
    &&& post.checkpoints@.last().event_sequence == post.events@.last().sequence
    &&& post.checkpoints@.last().reason@ == command.reason@
    &&& post.checkpoints@.last().created_at@ == now.text@
    &&& receipt.protocol_version == 1
    &&& receipt.revision == post.revision
    &&& receipt.event_sequence == post.events@.last().sequence
    &&& told(
        pre.events@,
        post.events@,
        kind,
        seq![("reason"@, json_string(command.reason@))],
        now,
    )
    &&& work_kept(pre, post)
}

/// A checkpoint is taken of a ready daemon at the revision that the caller knows,
/// and leaves it ready.
pub proof fn law_checkpoint_keeps_the_daemon_ready(
    store: &mut Store,
    command: CheckpointCommand,
    now: &Moment,
    r: Result<CheckpointReceipt, StoreError>,
)
    requires
        call_ensures(Store::checkpoint, (store, command, now), r),
    ensures
        r is Ok <==> old(store).revision == command.expected_revision && old(store).lifecycle@
            == "ready"@ && can_go_on(*old(store)),
        r is Ok ==> checkpoint_taken(
            *old(store),
            *final(store),
            command,
            "ready"@,
            "daemon.checkpointed"@,
            *now,
            r->Ok_0,
        ),
        r is Err ==> *final(store) == *old(store),
        old(store).revision != command.expected_revision ==> r->Err_0 is RevisionConflict,
        old(store).revision == command.expected_revision && old(store).lifecycle@ != "ready"@
            ==> r->Err_0 is InvalidLifecycle,
{
    assert(r is Ok ==> final(store)@.checkpoints.drop_last() == old(store)@.checkpoints);
}

/// A ready daemon is suspended with a checkpoint.
pub proof fn law_suspension_takes_a_checkpoint(
    store: &mut Store,
    command: CheckpointCommand,
    now: &Moment,
    r: Result<CheckpointReceipt, StoreError>,
)
    requires
        call_ensures(Store::suspend, (store, command, now), r),
    ensures
        r is Ok <==> old(store).revision == command.expected_revision && old(store).lifecycle@
            == "ready"@ && can_go_on(*old(store)),
        r is Ok ==> checkpoint_taken(
            *old(store),
            *final(store),
            command,
            "suspended"@,
            "daemon.suspended"@,
            *now,
            r->Ok_0,
        ),
        r is Err ==> *final(store) == *old(store),
        old(store).revision != command.expected_revision ==> r->Err_0 is RevisionConflict,
        old(store).revision == command.expected_revision && old(store).lifecycle@ != "ready"@
            ==> r->Err_0 is InvalidLifecycle,
{
    assert(r is Ok ==> final(store)@.checkpoints.drop_last() == old(store)@.checkpoints);
}

/// A daemon stops from any state, with a checkpoint, but not while a provider may
/// be working on a run.
pub proof fn law_shutdown_waits_for_runs(
    store: &mut Store,
    command: CheckpointCommand,
    now: &Moment,
    r: Result<CheckpointReceipt, StoreError>,
)
    requires
        call_ensures(Store::shutdown, (store, command, now), r),
    ensures
        r is Ok <==> old(store).revision == command.expected_revision && can_go_on(*old(store))
            && forall|i: int|
            0 <= i < old(store).identity.runs@.len() ==> !underway(
                #[trigger] old(store).identity.runs@[i],
            ),
        r is Ok ==> checkpoint_taken(
            *old(store),
            *final(store),
            command,
            "stopping"@,
            "daemon.shutdown_requested"@,
            *now,
            r->Ok_0,
        ),
        r is Err ==> *final(store) == *old(store),
        old(store).revision != command.expected_revision ==> r->Err_0 is RevisionConflict,
        (old(store).revision == command.expected_revision && exists|i: int|
            0 <= i < old(store).identity.runs@.len() && underway(
                #[trigger] old(store).identity.runs@[i],
            )) ==> r->Err_0 is ProviderRunsActive,
{
    let runs = old(store).identity.runs@;
    assert(old(store)@.identity.runs == runs);
    if exists|i: int| 0 <= i < runs.len() && underway(#[trigger] runs[i]) {
        let i = choose|i: int| 0 <= i < runs.len() && underway(#[trigger] runs[i]);
        assert(crate::lifecycle::run_active(old(store)@.identity.runs[i]));
    }
    assert(r is Ok ==> final(store)@.checkpoints.drop_last() == old(store)@.checkpoints);
}

/// A suspended daemon is resumed at the revision that the caller knows. No
/// checkpoint is taken.
pub proof fn law_resuming_makes_ready(
    store: &mut Store,
    command: CheckpointCommand,
    now: &Moment,
    r: Result<EventEnvelope, StoreError>,
)
    requires
        call_ensures(Store::resume, (store, command, now), r),
    ensures
        r is Ok <==> old(store).revision == command.expected_revision && old(store).lifecycle@
            == "suspended"@ && can_go_on(*old(store)),
        r is Err ==> *final(store) == *old(store),
        r is Ok ==> {
            &&& final(store).lifecycle@ == "ready"@
            &&& final(store).revision == old(store).revision + 1
            &&& final(store).checkpoints@ == old(store).checkpoints@
            &&& r->Ok_0 == final(store).events@.last()
            &&& told(
                old(store).events@,
                final(store).events@,
                "daemon.resumed"@,
                seq![("reason"@, json_string(command.reason@))],
                *now,
            )
            &&& work_kept(*old(store), *final(store))
        },
        old(store).revision != command.expected_revision ==> r->Err_0 is RevisionConflict,
        old(store).revision == command.expected_revision && old(store).lifecycle@ != "suspended"@
            ==> r->Err_0 is InvalidLifecycle,
{
}

/// A daemon becomes ready from any state.
pub proof fn law_daemon_becomes_ready(
    store: &mut Store,
    now: &Moment,
    r: Result<EventEnvelope, StoreError>,
)
    requires
        call_ensures(Store::mark_ready, (store, now), r),
    ensures
        r is Ok <==> can_go_on(*old(store)),
        r is Err ==> *final(store) == *old(store),
        r is Ok ==> {
            &&& final(store).lifecycle@ == "ready"@
            &&& final(store).revision == old(store).revision + 1
            &&& final(store).checkpoints@ == old(store).checkpoints@
            &&& r->Ok_0 == final(store).events@.last()
            &&& crate::promises::noted(
                old(store).events@,
                final(store).events@,
                "daemon.ready"@,
                *now,
            )
            &&& final(store).events@.last().payload_json@ == "{}"@
            &&& work_kept(*old(store), *final(store))
        },
{
}

proof fn lemma_state_names_differ()
    ensures
        "starting"@.len() == 8,
        "ready"@.len() == 5,
        "checkpointing"@.len() == 13,
        "suspended"@.len() == 9,
        "stopping"@.len() == 8,
        "recovering"@.len() == 10,
        "starting"@ != "stopping"@,
{
    reveal_strlit("starting");
    reveal_strlit("ready");
    reveal_strlit("checkpointing");
    reveal_strlit("suspended");
    reveal_strlit("stopping");
    reveal_strlit("recovering");
    assert("starting"@[2] == 'a');
    assert("stopping"@[2] == 'o');
}

/// Each state of the daemon has its own name, by which it is read back.
pub proof fn law_states_are_named(
    value: &DaemonLifecycle,
    name: &'static str,
    text: &str,
    parsed: DaemonLifecycle,
)
    requires
        call_ensures(lifecycle_name, (value,), name),
        call_ensures(parse_lifecycle, (text,), parsed),
        text@ == name@,
    ensures
        parsed == *value,
        *value == DaemonLifecycle::Starting ==> name@ == "starting"@,
        *value == DaemonLifecycle::Ready ==> name@ == "ready"@,
        *value == DaemonLifecycle::Checkpointing ==> name@ == "checkpointing"@,
        *value == DaemonLifecycle::Suspended ==> name@ == "suspended"@,
        *value == DaemonLifecycle::Stopping ==> name@ == "stopping"@,
        *value == DaemonLifecycle::Recovering ==> name@ == "recovering"@,
{
    lemma_state_names_differ();
}

/// A snapshot shows the daemon's identity, revision and state as they are.
pub proof fn law_snapshot_shows_what_is(store: &Store, r: DaemonSnapshot)
    requires
        call_ensures(Store::snapshot, (store,), r),
    ensures
        r.protocol_version == 1,
        r.daemon_id == store.daemon_id,
        r.revision == store.revision,
        store.lifecycle@ == "starting"@ ==> r.lifecycle == DaemonLifecycle::Starting,
        store.lifecycle@ == "ready"@ ==> r.lifecycle == DaemonLifecycle::Ready,
        store.lifecycle@ == "suspended"@ ==> r.lifecycle == DaemonLifecycle::Suspended,
        store.lifecycle@ == "stopping"@ ==> r.lifecycle == DaemonLifecycle::Stopping,
        store.lifecycle@ == "checkpointing"@ ==> r.lifecycle == DaemonLifecycle::Checkpointing,
        store.lifecycle@ == "recovering"@ ==> r.lifecycle == DaemonLifecycle::Recovering,
{
    lemma_state_names_differ();
}

/// Reading after a number gives the events with greater numbers, each of them,
/// and in the order of the journal.
pub proof fn law_reading_after_gives_the_later_events(
    store: &Store,
    sequence: u64,
    r: Vec<EventEnvelope>,
)
    requires
        call_ensures(Store::events_after, (store, sequence), r),
    ensures
        forall|k: int| 0 <= k < r@.len() ==> (#[trigger] r@[k]).sequence > sequence,
        forall|k: int| 0 <= k < r@.len() ==> store.events@.contains(#[trigger] r@[k]),
        forall|i: int|
            0 <= i < store.events@.len() && (#[trigger] store.events@[i]).sequence > sequence
                ==> r@.contains(store.events@[i]),
        (forall|i: int|
            0 <= i < store.events@.len() ==> (#[trigger] store.events@[i]).sequence > sequence)
            ==> r@ == store.events@,
{
    lemma_later(store.events@, sequence, store.events@.len());
    if forall|i: int|
        0 <= i < store.events@.len() ==> (#[trigger] store.events@[i]).sequence > sequence {
        lemma_all_later(store.events@, sequence, store.events@.len());
        assert(store.events@.take(store.events@.len() as int) == store.events@);
    }
}

proof fn lemma_all_later(events: Seq<EventEnvelope>, sequence: u64, n: nat)
    requires
        n <= events.len(),
        forall|i: int| 0 <= i < events.len() ==> (#[trigger] events[i]).sequence > sequence,
    ensures
        later_events(events, sequence, n) == events.take(n as int),
    decreases n,
{
    if n > 0 {
        lemma_all_later(events, sequence, (n - 1) as nat);
        assert(events.take(n - 1).push(events[n - 1]) == events.take(n as int));
    } else {
        assert(events.take(0) == Seq::<EventEnvelope>::empty());
    }
}

proof fn lemma_later(events: Seq<EventEnvelope>, sequence: u64, n: nat)
    requires
        n <= events.len(),
    ensures
        forall|k: int|
            0 <= k < later_events(events, sequence, n).len() ==> (#[trigger] later_events(
                events,
                sequence,
                n,
            )[k]).sequence > sequence && events.contains(later_events(events, sequence, n)[k]),
        forall|i: int|
            0 <= i < n && (#[trigger] events[i]).sequence > sequence ==> later_events(
                events,
                sequence,
                n,
            ).contains(events[i]),
    decreases n,
{
    if n > 0 {
        lemma_later(events, sequence, (n - 1) as nat);
        let before = later_events(events, sequence, (n - 1) as nat);
        let all = later_events(events, sequence, n);
        assert forall|i: int| 0 <= i < n && (#[trigger] events[i]).sequence > sequence implies
            all.contains(events[i]) by {
            if i < n - 1 {
                let k = choose|k: int| 0 <= k < before.len() && before[k] == events[i];
                assert(all[k] == events[i]);
            } else {
                assert(all[before.len() as int] == events[i]);
            }
        }
    }
}

/// A revision has a checkpoint exactly when one was recorded for it.
pub proof fn law_checkpoints_are_found_by_revision(store: &Store, revision: u64, r: bool)
    requires
        call_ensures(Store::has_checkpoint_for_revision, (store, revision), r),
    ensures
        !r ==> forall|i: int|
            0 <= i < store.checkpoints@.len() ==> (#[trigger] store.checkpoints@[i]).revision
                != revision,
        r ==> exists|i: int|
            0 <= i < store.checkpoints@.len() && (#[trigger] store.checkpoints@[i]).revision
                == revision,
{
    assert(store@.checkpoints == store.checkpoints@);
    if r {
        let i = choose|i: int|
            0 <= i < store@.checkpoints.len() && (#[trigger] store@.checkpoints[i]).revision
                == revision;
        assert(store.checkpoints@[i].revision == revision);
    }
    if exists|i: int|
        0 <= i < store.checkpoints@.len() && (#[trigger] store.checkpoints@[i]).revision
            == revision {
        let i = choose|i: int|
            0 <= i < store.checkpoints@.len() && (#[trigger] store.checkpoints@[i]).revision
                == revision;
        assert(store@.checkpoints[i].revision == revision);
    }
}

} // verus!
