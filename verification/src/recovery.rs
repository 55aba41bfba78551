use crate::dispatch::{dispatching_count, reconciled_row, uncertain_run};
use crate::error::{CatalogError, Refusal, StoreError};
use crate::graph::CheckedGraph;
use crate::identity::{CatalogView, Moment, NormalizedRunState, Run};
use crate::json::{fields, json_uid, object, Payload};
use crate::lifecycle::{is_run_active, run_active};
use crate::protocol::{EventEnvelope, StagedLaunchState};
use crate::store::{
    bump_refusal, fresh, journal_room, journaled_all, lemma_journaled_one_more, lemma_next_after,
    next_revision, out_of_range, GraphRow, StagedRow, Store, StoreView, MAX_STORED,
};
use crate::text::decimal;
use crate::uid::Uid;
use vstd::prelude::*;

verus! {

/// What the graph rules make of an execution after a restart: how many of its
/// nodes are no longer known to run, and the execution with those marked.
#[derive(Debug)]
pub struct GraphRecovery {
    pub changed: u64,
    pub graph: CheckedGraph,
}

/// How many of the first `n` runs a provider may have been working on.
pub open spec fn active_count(runs: Seq<Run>, n: nat) -> nat
    decreases n,
{
    if n == 0 {
        0
    } else {
        active_count(runs, (n - 1) as nat) + (if run_active(runs[n - 1]) {
            1nat
        } else {
            0nat
        })
    }
}

/// A run after a restart: what became of one that was being worked on is not
/// known.
pub open spec fn recovered_run(run: Run, now: Moment) -> Run {
    if run_active(run) {
        uncertain_run(run, now)
    } else {
        run
    }
}

/// Whether some run that was being worked on has no next revision.
pub open spec fn run_overflows(runs: Seq<Run>) -> bool {
    exists|i: int|
        0 <= i < runs.len() && run_active(#[trigger] runs[i]) && runs[i].metadata.revision
            == u64::MAX
}

/// What is wrong with the first stored execution, from the `from`-th on, that
/// cannot be recovered.
pub open spec fn recovery_refusal(rows: Seq<GraphRow>, recovered: Seq<GraphRecovery>, from: int) -> Option<Refusal>
    decreases rows.len() - from,
{
    if from < 0 || from >= rows.len() {
        None
    } else if rows[from].graph.fault is Some {
        Some(Refusal::InvalidGraph(rows[from].graph.fault->0))
    } else if recovered[from].changed > 0 && recovered[from].graph.execution.revision > MAX_STORED {
        Some(Refusal::Database)
    } else {
        recovery_refusal(rows, recovered, from + 1)
    }
}

/// What the journal is to say of the first `n` executions.
pub open spec fn recovery_notes(recovered: Seq<GraphRecovery>, n: nat) -> Seq<(Seq<char>, Seq<char>)>
    decreases n,
{
    if n == 0 {
        Seq::empty()
    } else {
        let before = recovery_notes(recovered, (n - 1) as nat);
        if recovered[n - 1].changed > 0 {
            before.push(recovery_note(recovered[n - 1]))
        } else {
            before
        }
    }
}

pub open spec fn recovery_note(recovery: GraphRecovery) -> (Seq<char>, Seq<char>) {
    (
        "graph.running_nodes_marked_uncertain"@,
        object(
            fields().push(("execution_id"@, json_uid(recovery.graph.execution.id))).push(
                ("nodes"@, decimal(recovery.changed as nat)),
            ),
        ),
    )
}

/// What the journal says of a restart before it comes to the executions.
pub open spec fn restart_notes(s: StoreView) -> Seq<(Seq<char>, Seq<char>)> {
    let runs = active_count(s.identity.runs, s.identity.runs.len());
    let claims = dispatching_count(s.staged, s.staged.len());
    let started = seq![("daemon.recovery_started"@, "{}"@)];
    let marked = if runs > 0 {
        started.push(
            (
                "catalog.runs_marked_uncertain"@,
                object(
                    fields().push(
                        ("revision"@, decimal((s.identity_revision + 1) as nat)),
                    ).push(("runs"@, decimal(runs))),
                ),
            ),
        )
    } else {
        started
    };
    if claims > 0 {
        marked.push(
            (
                "provider_launch.claims_marked_uncertain"@,
                object(fields().push(("count"@, decimal(claims)))),
            ),
        )
    } else {
        marked
    }
}

/// Why a restart cannot recover the state.
pub open spec fn restart_refusal(
    s: StoreView,
    stored_fault: Option<CatalogError>,
    recovered_fault: Option<CatalogError>,
    recovered: Seq<GraphRecovery>,
) -> Option<Refusal> {
    let changed = active_count(s.identity.runs, s.identity.runs.len()) > 0;
    let notes = restart_notes(s).len() + recovery_notes(recovered, recovered.len()).len();
    if bump_refusal(s.revision) is Some {
        bump_refusal(s.revision)
    } else if stored_fault is Some {
        Some(Refusal::InvalidCatalog(stored_fault->0))
    } else if run_overflows(s.identity.runs) {
        Some(Refusal::RevisionOverflow)
    } else if changed && recovered_fault is Some {
        Some(Refusal::InvalidCatalog(recovered_fault->0))
    } else if changed && bump_refusal(s.identity_revision) is Some {
        bump_refusal(s.identity_revision)
    } else if recovery_refusal(s.graphs, recovered, 0) is Some {
        recovery_refusal(s.graphs, recovered, 0)
    } else if !journal_room(s.events, notes) {
        Some(Refusal::Database)
    } else {
        None
    }
}

pub open spec fn recovered_row(row: GraphRow, recovery: GraphRecovery, now: Moment) -> GraphRow {
    if recovery.changed > 0 {
        GraphRow {
            revision: recovery.graph.execution.revision,
            graph: recovery.graph,
            updated_at: now.text,
            ..row
        }
    } else {
        row
    }
}

/// What a restart changes, and nothing else.
pub open spec fn restarted(pre: StoreView, post: StoreView, recovered: Seq<GraphRecovery>, now: Moment) -> bool {
    &&& journaled_all(
        pre.events,
        post.events,
        restart_notes(pre) + recovery_notes(recovered, recovered.len()),
        now,
    )
    &&& post =~= StoreView {
        revision: (pre.revision + 1) as u64,
        lifecycle: "recovering"@,
        identity_revision: if active_count(pre.identity.runs, pre.identity.runs.len()) > 0 {
            (pre.identity_revision + 1) as u64
        } else {
            pre.identity_revision
        },
        identity: CatalogView {
            runs: Seq::new(
                pre.identity.runs.len(),
                |i: int| recovered_run(pre.identity.runs[i], now),
            ),
            ..pre.identity
        },
        staged: Seq::new(pre.staged.len(), |i: int| reconciled_row(pre.staged[i])),
        graphs: Seq::new(
            pre.graphs.len(),
            |i: int| recovered_row(pre.graphs[i], recovered[i], now),
        ),
        events: post.events,
        ..pre
    }
}

fn count_active(runs: &Vec<Run>) -> (r: u64)
    ensures
        r == active_count(runs@, runs@.len()),
{
    let mut count: u64 = 0;
    let mut i: usize = 0;
    while i < runs.len()
        invariant
            i <= runs@.len(),
            count <= i,
            count == active_count(runs@, i as nat),
        decreases runs@.len() - i,
    {
        if is_run_active(&runs[i]) {
            count += 1;
        }
        i += 1;
    }
    count
}

fn overflows(runs: &Vec<Run>) -> (r: bool)
    ensures
        r == run_overflows(runs@),
{
    let mut i: usize = 0;
    while i < runs.len()
        invariant
            i <= runs@.len(),
            forall|j: int|
                0 <= j < i ==> !(run_active(#[trigger] runs@[j]) && runs@[j].metadata.revision
                    == u64::MAX),
        decreases runs@.len() - i,
    {
        if is_run_active(&runs[i]) && runs[i].metadata.revision == u64::MAX {
            assert(run_active(runs@[i as int]));
            return true;
        }
        i += 1;
    }
    false
}

fn count_dispatching(rows: &Vec<StagedRow>) -> (r: u64)
    ensures
        r == dispatching_count(rows@, rows@.len()),
{
    let mut count: u64 = 0;
    let mut i: usize = 0;
    while i < rows.len()
        invariant
            i <= rows@.len(),
            count <= i,
            count == dispatching_count(rows@, i as nat),
        decreases rows@.len() - i,
    {
        if rows[i].state == StagedLaunchState::Dispatching {
            count += 1;
        }
        i += 1;
    }
    count
}

fn check_recovered(rows: &Vec<GraphRow>, recovered: &Vec<GraphRecovery>) -> (r: Result<(), StoreError>)
    requires
        rows@.len() == recovered@.len(),
    ensures
        match r {
            Ok(_) => recovery_refusal(rows@, recovered@, 0) is None,
            Err(error) => recovery_refusal(rows@, recovered@, 0) == Some(error@),
        },
{
    let mut i: usize = 0;
    while i < rows.len()
        invariant
            i <= rows@.len(),
            rows@.len() == recovered@.len(),
            recovery_refusal(rows@, recovered@, 0) == recovery_refusal(
                rows@,
                recovered@,
                i as int,
            ),
        decreases rows@.len() - i,
    {
        if let Some(fault) = &rows[i].graph.fault {
            return Err(StoreError::InvalidGraph(fault.copy()));
        }
        if recovered[i].changed > 0 && recovered[i].graph.execution.revision > MAX_STORED {
            return Err(out_of_range());
        }
        i += 1;
    }
    Ok(())
}

fn count_notes(recovered: &Vec<GraphRecovery>) -> (r: u64)
    ensures
        r == recovery_notes(recovered@, recovered@.len()).len(),
        r <= recovered@.len(),
{
    let mut count: u64 = 0;
    let mut i: usize = 0;
    while i < recovered.len()
        invariant
            i <= recovered@.len(),
            count <= i,
            count == recovery_notes(recovered@, i as nat).len(),
        decreases recovered@.len() - i,
    {
        if recovered[i].changed > 0 {
            count += 1;
        }
        i += 1;
    }
    count
}

impl Store {
    /// The state that a daemon starts from: a fresh one, or, where one is stored,
    /// that one after its recovery.
    pub fn open(
        stored: Option<Store>,
        daemon_id: Uid,
        stored_fault: Option<CatalogError>,
        recovered_fault: Option<CatalogError>,
        recovered: Vec<GraphRecovery>,
        now: &Moment,
    ) -> (r: Result<Self, StoreError>)
        requires
            stored is Some ==> recovered@.len() == stored->0@.graphs.len(),
        ensures
            match stored {
                None => r is Ok && fresh(r->Ok_0@, daemon_id),
                Some(stored) => match restart_refusal(
                    stored@,
                    stored_fault,
                    recovered_fault,
                    recovered@,
                ) {
                    Some(refusal) => r is Err && r->Err_0@ == refusal,
                    None => r is Ok && restarted(stored@, r->Ok_0@, recovered@, *now),
                },
            },
    {
        match stored {
            None => Ok(Store::create(daemon_id)),
            Some(stored) => {
                let mut store = stored;
                match store.recover(stored_fault, recovered_fault, recovered, now) {
                    Ok(_) => Ok(store),
                    Err(error) => Err(error),
                }
            },
        }
    }

    /// Marks every run that was being worked on, every launch that was being
    /// dispatched and every execution that was running as uncertain, and starts
    /// the recovery of the daemon. Work is never taken up again by itself.
    #[verifier::rlimit(60)]
    pub fn recover(
        &mut self,
        stored_fault: Option<CatalogError>,
        recovered_fault: Option<CatalogError>,
        recovered: Vec<GraphRecovery>,
        now: &Moment,
    ) -> (r: Result<(), StoreError>)
        requires
            recovered@.len() == old(self)@.graphs.len(),
        ensures
            match restart_refusal(old(self)@, stored_fault, recovered_fault, recovered@) {
                Some(refusal) => r is Err && r->Err_0@ == refusal && *final(self) == *old(self),
                None => r is Ok && restarted(old(self)@, final(self)@, recovered@, *now),
            },
    {
        let revision = match next_revision(self.revision) {
            Ok(revision) => revision,
            Err(error) => {
                return Err(error);
            },
        };
        if let Some(fault) = stored_fault {
            return Err(StoreError::InvalidCatalog(fault));
        }
        if overflows(&self.identity.runs) {
            return Err(StoreError::RevisionOverflow);
        }
        let active = count_active(&self.identity.runs);
        let mut identity_revision = self.identity_revision;
        if active > 0 {
            if let Some(fault) = recovered_fault {
                return Err(StoreError::InvalidCatalog(fault));
            }
            match next_revision(self.identity_revision) {
                Ok(revision) => {
                    identity_revision = revision;
                },
                Err(error) => {
                    return Err(error);
                },
            }
        }
        match check_recovered(&self.graphs, &recovered) {
            Ok(_) => {},
            Err(error) => {
                return Err(error);
            },
        }
        let claims = count_dispatching(&self.staged);
        let graph_notes = count_notes(&recovered);
        if graph_notes > MAX_STORED {
            return Err(out_of_range());
        }
        let mut notes: u64 = 1 + graph_notes;
        if active > 0 {
            notes += 1;
        }
        if claims > 0 {
            notes += 1;
        }
        if !self.has_journal_room(notes) {
            return Err(out_of_range());
        }
        let ghost pre = self@;
        self.journal_restart(active, claims, identity_revision, graph_notes, now);
        self.revision = revision;
        self.lifecycle = "recovering".to_owned();
        self.identity_revision = identity_revision;
        self.mark_runs(now);
        self.mark_claims();
        self.mark_graphs(recovered, Ghost(pre.events), Ghost(restart_notes(pre)), now);
        Ok(())
    }

    fn journal_restart(&mut self, active: u64, claims: u64, identity_revision: u64, rest: u64, now: &Moment)
        requires
            active == active_count(old(self)@.identity.runs, old(self)@.identity.runs.len()),
            claims == dispatching_count(old(self)@.staged, old(self)@.staged.len()),
            active > 0 ==> identity_revision == old(self)@.identity_revision + 1,
            journal_room(old(self)@.events, restart_notes(old(self)@).len() + rest as nat),
        ensures
            final(self)@ == (StoreView { events: final(self)@.events, ..old(self)@ }),
            journaled_all(old(self)@.events, final(self)@.events, restart_notes(old(self)@), *now),
    {
        let ghost pre = self@.events;
        let ghost mut notes: Seq<(Seq<char>, Seq<char>)> = Seq::empty();
        assert(pre.take(pre.len() as int) =~= pre);
        assert(journaled_all(pre, self@.events, notes, *now));
        let ghost before = self@.events;
        self.insert_event("daemon.recovery_started", "{}".to_owned(), now);
        proof {
            lemma_journaled_one_more(
                pre,
                before,
                self@.events,
                notes,
                "daemon.recovery_started"@,
                "{}"@,
                *now,
            );
            notes = notes.push(("daemon.recovery_started"@, "{}"@));
            assert(notes =~= seq![("daemon.recovery_started"@, "{}"@)]);
            lemma_next_after(pre, self@.events, notes, *now);
        }
        if active > 0 {
            let payload = Payload::new().number("revision", identity_revision).number(
                "runs",
                active,
            ).finish();
            let ghost text = payload@;
            let ghost before = self@.events;
            self.insert_event("catalog.runs_marked_uncertain", payload, now);
            proof {
                lemma_journaled_one_more(
                    pre,
                    before,
                    self@.events,
                    notes,
                    "catalog.runs_marked_uncertain"@,
                    text,
                    *now,
                );
                notes = notes.push(("catalog.runs_marked_uncertain"@, text));
                lemma_next_after(pre, self@.events, notes, *now);
            }
        }
        if claims > 0 {
            let payload = Payload::new().number("count", claims).finish();
            let ghost text = payload@;
            let ghost before = self@.events;
            self.insert_event("provider_launch.claims_marked_uncertain", payload, now);
            proof {
                lemma_journaled_one_more(
                    pre,
                    before,
                    self@.events,
                    notes,
                    "provider_launch.claims_marked_uncertain"@,
                    text,
                    *now,
                );
                notes = notes.push(("provider_launch.claims_marked_uncertain"@, text));
            }
        }
    }

    fn mark_runs(&mut self, now: &Moment)
        requires
            !run_overflows(old(self)@.identity.runs),
        ensures
            final(self)@ == (StoreView {
                identity: CatalogView {
                    runs: Seq::new(
                        old(self)@.identity.runs.len(),
                        |i: int| recovered_run(old(self)@.identity.runs[i], *now),
                    ),
                    ..old(self)@.identity
                },
                ..old(self)@
            }),
    {
        let ghost pre = self@;
        let ghost runs = pre.identity.runs;
        let mut k: usize = 0;
        while k < self.identity.runs.len()
            invariant
                k <= self.identity.runs@.len(),
                self.identity.runs@.len() == runs.len(),
                !run_overflows(runs),
                self@ == (StoreView {
                    identity: CatalogView { runs: self@.identity.runs, ..pre.identity },
                    ..pre
                }),
                forall|j: int|
                    0 <= j < k ==> #[trigger] self.identity.runs@[j] == recovered_run(
                        runs[j],
                        *now,
                    ),
                forall|j: int|
                    k <= j < runs.len() ==> #[trigger] self.identity.runs@[j] == runs[j],
            decreases self.identity.runs@.len() - k,
        {
            assert(self.identity.runs@[k as int] == runs[k as int]);
            if is_run_active(&self.identity.runs[k]) {
                let run = &mut self.identity.runs[k];
                run.state = NormalizedRunState::Uncertain;
                run.metadata.revision = run.metadata.revision + 1;
                run.metadata.updated_at = now.text.clone();
            }
            k += 1;
        }
        assert(self@.identity.runs =~= Seq::new(
            runs.len(),
            |i: int| recovered_run(runs[i], *now),
        ));
    }

    fn mark_claims(&mut self)
        ensures
            final(self)@ == (StoreView {
                staged: Seq::new(
                    old(self)@.staged.len(),
                    |i: int| reconciled_row(old(self)@.staged[i]),
                ),
                ..old(self)@
            }),
    {
        let ghost pre = self@;
        let mut k: usize = 0;
        while k < self.staged.len()
            invariant
                k <= self.staged@.len(),
                self.staged@.len() == pre.staged.len(),
                self@ == (StoreView { staged: self@.staged, ..pre }),
                forall|j: int|
                    0 <= j < k ==> #[trigger] self.staged@[j] == reconciled_row(pre.staged[j]),
                forall|j: int|
                    k <= j < pre.staged.len() ==> #[trigger] self.staged@[j] == pre.staged[j],
            decreases self.staged@.len() - k,
        {
            if self.staged[k].state == StagedLaunchState::Dispatching {
                self.staged[k].state = StagedLaunchState::Uncertain;
            }
            k += 1;
        }
        assert(self@.staged =~= Seq::new(
            pre.staged.len(),
            |i: int| reconciled_row(pre.staged[i]),
        ));
    }

    fn mark_graphs(
        &mut self,
        recovered: Vec<GraphRecovery>,
        Ghost(first): Ghost<Seq<EventEnvelope>>,
        Ghost(notes): Ghost<Seq<(Seq<char>, Seq<char>)>>,
        now: &Moment,
    )
        requires
            recovered@.len() == old(self)@.graphs.len(),
            journaled_all(first, old(self)@.events, notes, *now),
            journal_room(
                first,
                notes.len() + recovery_notes(recovered@, recovered@.len()).len(),
            ),
        ensures
            final(self)@ == (StoreView {
                graphs: Seq::new(
                    old(self)@.graphs.len(),
                    |i: int| recovered_row(old(self)@.graphs[i], recovered@[i], *now),
                ),
                events: final(self)@.events,
                ..old(self)@
            }),
            journaled_all(
                first,
                final(self)@.events,
                notes + recovery_notes(recovered@, recovered@.len()),
                *now,
            ),
    {
        let ghost pre = self@;
        let ghost all = recovered@;
        let mut recovered = recovered;
        let mut k: usize = 0;
        assert(notes + recovery_notes(all, 0) =~= notes);
        while k < self.graphs.len()
            invariant
                k <= self.graphs@.len(),
                self.graphs@.len() == pre.graphs.len(),
                recovered@.len() == pre.graphs.len(),
                all.len() == pre.graphs.len(),
                self@ == (StoreView { graphs: self@.graphs, events: self@.events, ..pre }),
                journaled_all(
                    first,
                    self@.events,
                    notes + recovery_notes(all, k as nat),
                    *now,
                ),
                journal_room(first, notes.len() + recovery_notes(all, all.len()).len()),
                forall|j: int|
                    0 <= j < k ==> #[trigger] self.graphs@[j] == recovered_row(
                        pre.graphs[j],
                        all[j],
                        *now,
                    ),
                forall|j: int|
                    k <= j < pre.graphs.len() ==> #[trigger] self.graphs@[j] == pre.graphs[j],
                forall|j: int| k <= j < all.len() ==> #[trigger] recovered@[j] == all[j],
            decreases self.graphs@.len() - k,
        {
            assert(recovered@[k as int] == all[k as int]);
            assert(self.graphs@[k as int] == pre.graphs[k as int]);
            let changed = recovered[k].changed;
            if changed > 0 {
                let payload = Payload::new().uid(
                    "execution_id",
                    recovered[k].graph.execution.id,
                ).number("nodes", changed).finish();
                let ghost before = self@.events;
                let ghost so_far = notes + recovery_notes(all, k as nat);
                proof {
                    lemma_next_after(first, before, so_far, *now);
                    lemma_notes_grow(all, k as nat + 1, all.len());
                }
                self.insert_event("graph.running_nodes_marked_uncertain", payload, now);
                proof {
                    lemma_journaled_one_more(
                        first,
                        before,
                        self@.events,
                        so_far,
                        recovery_note(all[k as int]).0,
                        recovery_note(all[k as int]).1,
                        *now,
                    );
                    assert(so_far.push(recovery_note(all[k as int])) =~= notes + recovery_notes(
                        all,
                        k as nat + 1,
                    ));
                }
                let revision = recovered[k].graph.execution.revision;
                core::mem::swap(&mut self.graphs[k].graph, &mut recovered[k].graph);
                self.graphs[k].revision = revision;
                self.graphs[k].updated_at = now.text.clone();
            }
            k += 1;
        }
        assert(self@.graphs =~= Seq::new(
            pre.graphs.len(),
            |i: int| recovered_row(pre.graphs[i], all[i], *now),
        ));
    }
}

proof fn lemma_notes_grow(recovered: Seq<GraphRecovery>, n: nat, m: nat)
    requires
        n <= m,
    ensures
        recovery_notes(recovered, n).len() <= recovery_notes(recovered, m).len(),
    decreases m - n,
{
    if n < m {
        lemma_notes_grow(recovered, n, (m - 1) as nat);
    }
}

} // verus!
