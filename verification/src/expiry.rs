use crate::approval::ApprovalRow;
use crate::error::{Refusal, StoreError};
use crate::protocol::StagedLaunchState;
use crate::store::{StagedRow, Store, MAX_STORED};
use crate::uid::{find, position, ApprovalRequestId};
use vstd::prelude::*;
use vstd::seq_lib::*;

verus! {

/// A staged launch whose approval has expired, and when it was staged.
#[derive(Clone, Copy, Debug, PartialEq, Eq, Structural)]
pub struct ExpiredLaunch {
    pub staged_at_ms: u64,
    pub request_id: ApprovalRequestId,
}

/// Whether a staged launch has expired: its request is past its time, and is
/// still undecided, or approved and unspent.
pub open spec fn expired(row: StagedRow, approvals: Seq<ApprovalRow>, now: u64) -> bool {
    match find(approvals, row.request_id) {
        None => false,
        Some(a) => {
            &&& approvals[a].request.expires_at_ms <= now
            &&& (row.state == StagedLaunchState::AwaitingApproval && approvals[a].decision is None)
                || (row.state == StagedLaunchState::Ready && approvals[a].decision is Some)
        },
    }
}

/// The expired launches among the first `n`, as they are stored.
pub open spec fn expired_launches(rows: Seq<StagedRow>, approvals: Seq<ApprovalRow>, now: u64, n: nat) -> Seq<
    ExpiredLaunch,
>
    decreases n,
{
    if n == 0 {
        Seq::empty()
    } else {
        let before = expired_launches(rows, approvals, now, (n - 1) as nat);
        if expired(rows[n - 1], approvals, now) {
            before.push(
                ExpiredLaunch {
                    staged_at_ms: rows[n - 1].staged_at_ms,
                    request_id: rows[n - 1].request_id,
                },
            )
        } else {
            before
        }
    }
}

/// The order in which expired launches are cancelled: by the time of their
/// staging, and then by the identifier of their request.
pub open spec fn before_or_same(a: ExpiredLaunch, b: ExpiredLaunch) -> bool {
    a.staged_at_ms < b.staged_at_ms || (a.staged_at_ms == b.staged_at_ms && a.request_id.bits
        <= b.request_id.bits)
}

pub open spec fn in_order(launches: Seq<ExpiredLaunch>) -> bool {
    forall|i: int, j: int|
        0 <= i <= j < launches.len() ==> before_or_same(launches[i], launches[j])
}

fn insert_in_order(launches: &mut Vec<ExpiredLaunch>, launch: ExpiredLaunch)
    requires
        in_order(old(launches)@),
    ensures
        in_order(final(launches)@),
        final(launches)@.to_multiset() == old(launches)@.to_multiset().insert(launch),
{
    let mut i: usize = 0;
    while i < launches.len() && (launches[i].staged_at_ms < launch.staged_at_ms || (
    launches[i].staged_at_ms == launch.staged_at_ms && launches[i].request_id.bits
        <= launch.request_id.bits))
        invariant
            i <= launches@.len(),
            launches == old(launches),
            in_order(launches@),
            forall|j: int| 0 <= j < i ==> before_or_same(#[trigger] launches@[j], launch),
        decreases launches@.len() - i,
    {
        i += 1;
    }
    proof {
        to_multiset_insert(launches@, i as int, launch);
        let after = launches@.insert(i as int, launch);
        assert forall|a: int, b: int| 0 <= a <= b < after.len() implies before_or_same(
            after[a],
            after[b],
        ) by {
            if i < launches@.len() {
                assert(before_or_same(launch, launches@[i as int]));
            }
            if a == i && b > i {
                assert(before_or_same(launches@[i as int], launches@[b - 1]));
            }
        }
    }
    launches.insert(i, launch);
}

impl Store {
    /// The staged launches whose approval has expired at `now`, in the order in
    /// which they are to be cancelled.
    pub fn expire(&self, now: u64) -> (r: Result<Vec<ExpiredLaunch>, StoreError>)
        ensures
            if now > MAX_STORED {
                r is Err && r->Err_0@ == Refusal::CredentialGrantRejected
            } else {
                &&& r is Ok
                &&& in_order(r->Ok_0@)
                &&& r->Ok_0@.to_multiset() == expired_launches(
                    self@.staged,
                    self@.approvals,
                    now,
                    self@.staged.len(),
                ).to_multiset()
            },
    {
        if now > MAX_STORED {
            return Err(StoreError::CredentialGrantRejected);
        }
        let mut launches: Vec<ExpiredLaunch> = Vec::new();
        let mut i: usize = 0;
        while i < self.staged.len()
            invariant
                i <= self.staged@.len(),
                in_order(launches@),
                launches@.to_multiset() == expired_launches(
                    self@.staged,
                    self@.approvals,
                    now,
                    i as nat,
                ).to_multiset(),
            decreases self.staged@.len() - i,
        {
            let row = &self.staged[i];
            let due = match position(&self.approvals, row.request_id) {
                None => false,
                Some(a) => {
                    let approval = &self.approvals[a];
                    approval.request.expires_at_ms <= now && ((row.state
                        == StagedLaunchState::AwaitingApproval && approval.decision.is_none()) || (
                    row.state == StagedLaunchState::Ready && approval.decision.is_some()))
                },
            };
            if due {
                let launch = ExpiredLaunch {
                    staged_at_ms: row.staged_at_ms,
                    request_id: row.request_id,
                };
                proof {
                    to_multiset_build(
                        expired_launches(self@.staged, self@.approvals, now, i as nat),
                        launch,
                    );
                }
                insert_in_order(&mut launches, launch);
            }
            i += 1;
        }
        Ok(launches)
    }
}

} // verus!
