use crate::uid::{find, position, Keyed, RunId, Uid};
use vstd::prelude::*;

verus! {

/// The refusal of a run controller.
#[derive(Clone, Copy, Debug, PartialEq, Eq, Structural)]
pub struct RunControlError;

impl RunControlError {
    pub fn message(&self) -> (r: &'static str)
        ensures
            r@ == "provider run controller rejected cancellation"@,
    {
        "provider run controller rejected cancellation"
    }
}

/// A run and the controller that can cancel it.
#[derive(Debug)]
pub struct Registration<C> {
    pub run_id: RunId,
    pub controller: C,
}

impl<C> Keyed for Registration<C> {
    open spec fn key(&self) -> Uid {
        self.run_id
    }

    fn id(&self) -> (r: Uid) {
        self.run_id
    }
}

/// The controllers of the runs that are being worked on, at most one for each
/// run.
#[derive(Debug)]
pub struct RunControllerRegistry<C> {
    registrations: Vec<Registration<C>>,
}

impl<C> View for RunControllerRegistry<C> {
    type V = Map<RunId, C>;

    closed spec fn view(&self) -> Map<RunId, C> {
        registered(self.registrations@)
    }
}

/// Which controller each run has.
spec fn registered<C>(rows: Seq<Registration<C>>) -> Map<RunId, C> {
    Map::new(
        |id: RunId| find(rows, id) is Some,
        |id: RunId| rows[find(rows, id)->0].controller,
    )
}

proof fn lemma_find_push<C>(rows: Seq<Registration<C>>, row: Registration<C>, id: RunId, from: int)
    requires
        0 <= from <= rows.len(),
    ensures
        crate::uid::find_from(rows.push(row), id, from) == (match crate::uid::find_from(
            rows,
            id,
            from,
        ) {
            Some(i) => Some(i),
            None => if row.run_id == id {
                Some(rows.len() as int)
            } else {
                None
            },
        }),
    decreases rows.len() - from,
{
    if from < rows.len() {
        assert(rows.push(row)[from] == rows[from]);
        if rows[from].run_id != id {
            lemma_find_push(rows, row, id, from + 1);
        }
    } else {
        assert(rows.push(row)[from] == row);
        reveal_with_fuel(crate::uid::find_from, 2);
    }
}

/// No run is registered twice.
spec fn distinct<C>(rows: Seq<Registration<C>>) -> bool {
    forall|i: int, j: int| 0 <= i < j < rows.len() ==> rows[i].run_id != rows[j].run_id
}

proof fn lemma_find_distinct<C>(rows: Seq<Registration<C>>, i: int)
    requires
        distinct(rows),
        0 <= i < rows.len(),
    ensures
        find(rows, rows[i].run_id) == Some(i),
{
    crate::uid::lemma_find(rows, rows[i].run_id);
}

impl<C> RunControllerRegistry<C> {
    #[verifier::type_invariant]
    spec fn wf(self) -> bool {
        distinct(self.registrations@)
    }

    pub fn new() -> (r: Self)
        ensures
            r@ == Map::<RunId, C>::empty(),
    {
        let r = RunControllerRegistry { registrations: Vec::new() };
        assert(r@ =~= Map::<RunId, C>::empty());
        r
    }

    /// Registers the controller of a run that has none.
    pub fn register(&mut self, run_id: RunId, controller: C) -> (r: Result<(), RunControlError>)
        ensures
            if old(self)@.contains_key(run_id) {
                r is Err && final(self)@ == old(self)@
            } else {
                r is Ok && final(self)@ == old(self)@.insert(run_id, controller)
            },
    {
        if position(&self.registrations, run_id).is_some() {
            return Err(RunControlError);
        }
        let ghost rows = self.registrations@;
        let ghost row = Registration { run_id, controller };
        proof {
            use_type_invariant(&*self);
            crate::uid::lemma_find(rows, run_id);
            assert forall|id: RunId| #[trigger] find(rows.push(row), id) == (match find(rows, id) {
                Some(i) => Some(i),
                None => if run_id == id {
                    Some(rows.len() as int)
                } else {
                    None
                },
            }) by {
                lemma_find_push(rows, row, id, 0);
            }
            assert forall|id: RunId| find(rows, id) is Some implies 0 <= (#[trigger] find(
                rows,
                id,
            ))->0 < rows.len() by {
                crate::uid::lemma_find(rows, id);
            }
            assert(registered(rows.push(row)) =~= registered(rows).insert(run_id, controller));
        }
        let mut registrations: Vec<Registration<C>> = Vec::new();
        core::mem::swap(&mut registrations, &mut self.registrations);
        registrations.push(Registration { run_id, controller });
        self.registrations = registrations;
        Ok(())
    }

    /// Forgets the controller of a run, and says whether there was one.
    pub fn unregister(&mut self, run_id: RunId) -> (r: bool)
        ensures
            r == old(self)@.contains_key(run_id),
            final(self)@ == old(self)@.remove(run_id),
    {
        proof {
            use_type_invariant(&*self);
        }
        let ghost rows = self.registrations@;
        match position(&self.registrations, run_id) {
            None => {
                assert(registered(rows).remove(run_id) =~= registered(rows));
                false
            },
            Some(i) => {
                let ghost rest = rows.remove(i as int);
                proof {
                    assert(distinct(rest));
                    assert forall|id: RunId| #![trigger find(rest, id)]
                        (find(rest, id) is Some) == (find(rows, id) is Some && id != run_id) && (
                        find(rest, id) is Some ==> rest[find(rest, id)->0].controller
                            == rows[find(rows, id)->0].controller) by {
                        crate::uid::lemma_find(rest, id);
                        crate::uid::lemma_find(rows, id);
                        if find(rows, id) is Some {
                            let k = find(rows, id)->0;
                            if id != run_id {
                                let m = if k < i {
                                    k
                                } else {
                                    k - 1
                                };
                                assert(rest[m] == rows[k]);
                                lemma_find_distinct(rest, m);
                            } else {
                                lemma_find_distinct(rows, i as int);
                                if find(rest, id) is Some {
                                    let m = find(rest, id)->0;
                                    let n = if m < i {
                                        m
                                    } else {
                                        m + 1
                                    };
                                    assert(rows[n] == rest[m]);
                                    lemma_find_distinct(rows, n);
                                }
                            }
                        } else if find(rest, id) is Some {
                            let m = find(rest, id)->0;
                            let n = if m < i {
                                m
                            } else {
                                m + 1
                            };
                            assert(rows[n] == rest[m]);
                        }
                    }
                    assert(registered(rest) =~= registered(rows).remove(run_id));
                }
                let mut registrations: Vec<Registration<C>> = Vec::new();
                core::mem::swap(&mut registrations, &mut self.registrations);
                registrations.remove(i);
                self.registrations = registrations;
                true
            },
        }
    }

    /// The controller of a run; a run without one cannot be cancelled.
    pub fn controller(&self, run_id: RunId) -> (r: Result<&C, RunControlError>)
        ensures
            match r {
                Ok(controller) => self@.contains_key(run_id) && self@[run_id] == *controller,
                Err(_) => !self@.contains_key(run_id),
            },
    {
        match position(&self.registrations, run_id) {
            Some(i) => Ok(&self.registrations[i].controller),
            None => Err(RunControlError),
        }
    }
}

} // verus!
