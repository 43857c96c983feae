//! Approval and rejection of voting proposals: the moderators of the voting contract
//! (its `reviewer_ids`) approve a created proposal, which then
//! takes a snapshot of the veNEAR balances and a voting start time, or reject it.
use crate::growth::VenearGrowthConfig;
use crate::lockup_types::{Balance, Timestamp};
use vstd::prelude::*;

verus! {

/// The identifier of a proposal.
pub type ProposalId = u32;

/// Where a proposal stands in review.
#[derive(Clone, Copy, Debug, PartialEq, Eq, Structural)]
pub enum ProposalStatus {
    /// Waiting for a review.
    Created,
    /// Refused by a moderator.
    Rejected,
    /// Accepted by a moderator, with a snapshot taken.
    Approved,
}

/// The snapshot of veNEAR balances that an approved proposal is voted on, with the
/// total veNEAR and the growth rate at the time it was taken.
pub struct SnapshotAndState<S> {
    /// The snapshot of the accounts.
    pub snapshot: S,
    /// When the snapshot was taken.
    pub timestamp_ns: Timestamp,
    /// The total veNEAR balance at that time.
    pub total_venear: Balance,
    /// How veNEAR grows.
    pub venear_growth_config: VenearGrowthConfig,
}

/// The review state of a proposal.
pub struct Proposal<S> {
    /// The identifier of the proposal.
    pub id: ProposalId,
    /// Where the proposal stands.
    pub status: ProposalStatus,
    /// Whether a moderator refused it.
    pub rejected: bool,
    /// Who reviewed it.
    pub reviewer_id: Option<String>,
    /// When voting starts, once approved.
    pub voting_start_time_ns: Option<Timestamp>,
    /// The snapshot that voting uses, once approved.
    pub snapshot_and_state: Option<SnapshotAndState<S>>,
}

/// Why a review was refused.
#[derive(Clone, Copy, Debug, PartialEq, Eq, Structural)]
pub enum ReviewError {
    /// The call did not come with exactly one yoctoNEAR attached.
    RequiresOneYocto,
    /// The caller is not a moderator.
    NotReviewer,
    /// The proposal is not waiting for a review.
    NotCreated,
    /// The requested voting start time is before the approval.
    VotingStartInPast,
}

/// Nanoseconds in one second.
pub const NANOS_PER_SECOND: u64 = 1_000_000_000;

/// `account_id` is one of `reviewer_ids`.
pub open spec fn is_reviewer(reviewer_ids: Seq<String>, account_id: String) -> bool {
    exists|i: int| 0 <= i < reviewer_ids.len() && #[trigger] reviewer_ids[i]@ == account_id@
}

/// The voting start time that an approval at `now` sets: the requested second, or
/// `now` where none is requested.
pub open spec fn spec_voting_start_time_ns(voting_start_time_sec: Option<u32>, now: Timestamp) -> int {
    match voting_start_time_sec {
        Some(sec) => sec * NANOS_PER_SECOND,
        None => now as int,
    }
}

/// Checks that `account_id` is one of `reviewer_ids`.
pub fn assert_called_by_reviewer(reviewer_ids: &Vec<String>, account_id: &String) -> (r: Result<(), ReviewError>)
    ensures
        r == (if is_reviewer(reviewer_ids@, *account_id) {
            Ok::<(), ReviewError>(())
        } else {
            Err(ReviewError::NotReviewer)
        }),
        r is Ok <==> exists|i: int| 0 <= i < reviewer_ids.len() && #[trigger] reviewer_ids@[i]@ == account_id@,
        r is Err ==> r == Err::<(), ReviewError>(ReviewError::NotReviewer),
{
    let mut i: usize = 0;
    while i < reviewer_ids.len()
        invariant
            i <= reviewer_ids.len(),
            forall|j: int| 0 <= j < i ==> reviewer_ids@[j]@ != account_id@,
        decreases reviewer_ids.len() - i,
    {
        if reviewer_ids[i] == *account_id {
            assert(reviewer_ids@[i as int]@ == account_id@);
            return Ok(());
        }
        i = i + 1;
    }
    Err(ReviewError::NotReviewer)
}

/// The checks before a proposal is approved or rejected: one yoctoNEAR attached and a
/// moderator calling.
pub open spec fn spec_check_reviewer(
    attached_deposit: Balance,
    reviewer_ids: Seq<String>,
    predecessor_account_id: String,
) -> Result<(), ReviewError> {
    if attached_deposit != 1 {
        Err(ReviewError::RequiresOneYocto)
    } else if !is_reviewer(reviewer_ids, predecessor_account_id) {
        Err(ReviewError::NotReviewer)
    } else {
        Ok(())
    }
}

fn check_reviewer(
    attached_deposit: Balance,
    reviewer_ids: &Vec<String>,
    predecessor_account_id: &String,
) -> (r: Result<(), ReviewError>)
    ensures
        r == spec_check_reviewer(attached_deposit, reviewer_ids@, *predecessor_account_id),
{
    if attached_deposit != 1 {
        return Err(ReviewError::RequiresOneYocto);
    }
    assert_called_by_reviewer(reviewer_ids, predecessor_account_id)
}

/// The proposal and the voting start time that an approval asks the snapshot for;
/// `on_get_snapshot` receives them back with the snapshot.
#[derive(Clone, Copy, Debug, PartialEq, Eq, Structural)]
pub struct SnapshotRequest {
    pub proposal_id: ProposalId,
    pub voting_start_time_sec: Option<u32>,
}

impl<S> Proposal<S> {
    /// Whether a decision on the proposal is accepted: one yoctoNEAR attached, a
    /// moderator calling, and the proposal still created.
    pub open spec fn spec_check_decision(
        self,
        attached_deposit: Balance,
        reviewer_ids: Seq<String>,
        predecessor_account_id: String,
    ) -> Result<(), ReviewError> {
        match spec_check_reviewer(attached_deposit, reviewer_ids, predecessor_account_id) {
            Err(e) => Err(e),
            Ok(()) => if self.status != ProposalStatus::Created {
                Err(ReviewError::NotCreated)
            } else {
                Ok(())
            },
        }
    }

    /// The refusal of `approve_proposal` or `reject_proposal`, if they refuse the call:
    /// they need 1 yoctoNEAR attached, a moderator calling and a created proposal.
    pub fn check_decision(
        &self,
        attached_deposit: Balance,
        reviewer_ids: &Vec<String>,
        predecessor_account_id: &String,
    ) -> (r: Result<(), ReviewError>)
        ensures
            r == self.spec_check_decision(attached_deposit, reviewer_ids@, *predecessor_account_id),
            attached_deposit != 1 ==> r == Err::<(), ReviewError>(ReviewError::RequiresOneYocto),
            attached_deposit == 1 && !(exists|i: int| 0 <= i < reviewer_ids.len() && #[trigger] reviewer_ids@[i]@
                == predecessor_account_id@) ==> r == Err::<(), ReviewError>(ReviewError::NotReviewer),
            r is Ok <==> attached_deposit == 1 && self.status == ProposalStatus::Created && exists|i: int|
                0 <= i < reviewer_ids.len() && #[trigger] reviewer_ids@[i]@ == predecessor_account_id@,
            r is Err && attached_deposit == 1 && (exists|i: int| 0 <= i < reviewer_ids.len()
                && #[trigger] reviewer_ids@[i]@ == predecessor_account_id@) ==> r == Err::<(), ReviewError>(
                ReviewError::NotCreated,
            ),
    {
        check_reviewer(attached_deposit, reviewer_ids, predecessor_account_id)?;
        if self.status != ProposalStatus::Created {
            return Err(ReviewError::NotCreated);
        }
        Ok(())
    }

    /// Starts the approval of a created proposal: returns the request for the snapshot
    /// of the veNEAR contract, which `on_get_snapshot` then receives.
    /// Only for a call that `check_decision` accepts.
    pub fn approve_proposal(
        &self,
        attached_deposit: Balance,
        reviewer_ids: &Vec<String>,
        predecessor_account_id: &String,
        voting_start_time_sec: Option<u32>,
    ) -> (r: SnapshotRequest)
        requires
            self.spec_check_decision(attached_deposit, reviewer_ids@, *predecessor_account_id) is Ok,
        ensures
            r == (SnapshotRequest { proposal_id: self.id, voting_start_time_sec }),
    {
        SnapshotRequest { proposal_id: self.id, voting_start_time_sec }
    }

    /// Rejects a created proposal: it is marked rejected, with the caller as the account
    /// that decided. Only for a call that `check_decision` accepts.
    pub fn reject_proposal(
        &mut self,
        attached_deposit: Balance,
        reviewer_ids: &Vec<String>,
        predecessor_account_id: &String,
    )
        requires
            old(self).spec_check_decision(attached_deposit, reviewer_ids@, *predecessor_account_id) is Ok,
        ensures
            final(self).status == ProposalStatus::Rejected,
            final(self).rejected,
            final(self).reviewer_id == Some(*predecessor_account_id),
            final(self).id == old(self).id,
            final(self).voting_start_time_ns == old(self).voting_start_time_ns,
            final(self).snapshot_and_state == old(self).snapshot_and_state,
    {
        self.rejected = true;
        self.reviewer_id = Some(predecessor_account_id.clone());
        self.status = ProposalStatus::Rejected;
    }

    /// Whether `on_get_snapshot` accepts the snapshot at `now`: the proposal must still
    /// be created and the voting must not start before `now`.
    pub open spec fn spec_check_on_get_snapshot(self, now: Timestamp, voting_start_time_sec: Option<u32>) -> Result<(), ReviewError> {
        if self.status != ProposalStatus::Created {
            Err(ReviewError::NotCreated)
        } else if spec_voting_start_time_ns(voting_start_time_sec, now) < now {
            Err(ReviewError::VotingStartInPast)
        } else {
            Ok(())
        }
    }

    /// The voting start time in nanoseconds: the requested second, or `now`.
    fn voting_start_time_ns(now: Timestamp, voting_start_time_sec: Option<u32>) -> (r: Timestamp)
        ensures
            r == spec_voting_start_time_ns(voting_start_time_sec, now),
    {
        match voting_start_time_sec {
            Some(sec) => (sec as u64) * NANOS_PER_SECOND,
            None => now,
        }
    }

    /// The refusal of `on_get_snapshot` at `now`, if it refuses the snapshot.
    pub fn check_on_get_snapshot(&self, now: Timestamp, voting_start_time_sec: Option<u32>) -> (r: Result<(), ReviewError>)
        ensures
            r == self.spec_check_on_get_snapshot(now, voting_start_time_sec),
            self.status != ProposalStatus::Created ==> r == Err::<(), ReviewError>(ReviewError::NotCreated),
            self.status == ProposalStatus::Created ==> match voting_start_time_sec {
                None => r == Ok::<(), ReviewError>(()),
                Some(sec) => r == if sec * 1_000_000_000 >= now {
                    Ok::<(), ReviewError>(())
                } else {
                    Err(ReviewError::VotingStartInPast)
                },
            },
    {
        if self.status != ProposalStatus::Created {
            return Err(ReviewError::NotCreated);
        }
        if Self::voting_start_time_ns(now, voting_start_time_sec) < now {
            return Err(ReviewError::VotingStartInPast);
        }
        Ok(())
    }

    /// Completes the approval with the snapshot received from the veNEAR contract:
    /// sets the voting start time (the requested second, or `now`), records the
    /// snapshot with the total veNEAR at `now`, and marks the proposal approved, with
    /// `predecessor_account_id` as the account that decided.
    /// Only for a snapshot that `check_on_get_snapshot` accepts.
    pub fn on_get_snapshot(
        &mut self,
        snapshot: S,
        total_venear: Balance,
        venear_growth_config: VenearGrowthConfig,
        predecessor_account_id: String,
        now: Timestamp,
        voting_start_time_sec: Option<u32>,
    )
        requires
            old(self).spec_check_on_get_snapshot(now, voting_start_time_sec) is Ok,
        ensures
            final(self).status == ProposalStatus::Approved,
            final(self).rejected == old(self).rejected,
            final(self).id == old(self).id,
            final(self).reviewer_id == Some(predecessor_account_id),
            final(self).voting_start_time_ns == Some(
                spec_voting_start_time_ns(voting_start_time_sec, now) as Timestamp,
            ),
            final(self).voting_start_time_ns == match voting_start_time_sec {
                None => Some(now),
                Some(sec) => Some((sec * 1_000_000_000) as Timestamp),
            },
            final(self).voting_start_time_ns->Some_0 >= now,
            final(self).snapshot_and_state == Some(
                SnapshotAndState { snapshot, timestamp_ns: now, total_venear, venear_growth_config },
            ),
    {
        let voting_start_time_ns = Self::voting_start_time_ns(now, voting_start_time_sec);
        self.reviewer_id = Some(predecessor_account_id);
        self.voting_start_time_ns = Some(voting_start_time_ns);
        self.snapshot_and_state = Some(
            SnapshotAndState { snapshot, timestamp_ns: now, total_venear, venear_growth_config },
        );
        self.status = ProposalStatus::Approved;
    }
}

impl<S> Proposal<S> {
    /// Only a moderator, with one yoctoNEAR attached, can approve or reject a proposal,
    /// and only while it is waiting for a review.
    pub proof fn lemma_only_reviewers_review(
        self,
        attached_deposit: Balance,
        reviewer_ids: Seq<String>,
        predecessor_account_id: String,
    )
        ensures
            self.spec_check_decision(attached_deposit, reviewer_ids, predecessor_account_id) is Ok
                <==> {
                &&& attached_deposit == 1
                &&& is_reviewer(reviewer_ids, predecessor_account_id)
                &&& self.status == ProposalStatus::Created
            },
    {
    }

    /// A proposal is reviewed once: once it is rejected or approved, neither a
    /// rejection nor an approval is accepted any more.
    pub proof fn lemma_review_is_final(
        self,
        attached_deposit: Balance,
        reviewer_ids: Seq<String>,
        predecessor_account_id: String,
        now: Timestamp,
        voting_start_time_sec: Option<u32>,
    )
        requires
            self.status == ProposalStatus::Rejected || self.status == ProposalStatus::Approved,
        ensures
            self.spec_check_decision(attached_deposit, reviewer_ids, predecessor_account_id) is Err,
            self.spec_check_on_get_snapshot(now, voting_start_time_sec)
                == Err::<(), ReviewError>(ReviewError::NotCreated),
    {
    }

    /// An approval never schedules the voting before the snapshot it is voted on: the
    /// voting start time is at least the time of the snapshot.
    pub proof fn lemma_voting_starts_after_snapshot(self, now: Timestamp, voting_start_time_sec: Option<u32>)
        ensures
            self.spec_check_on_get_snapshot(now, voting_start_time_sec) is Ok ==> {
                &&& now <= spec_voting_start_time_ns(voting_start_time_sec, now) <= u64::MAX
                &&& self.status == ProposalStatus::Created
            },
    {
        if let Some(sec) = voting_start_time_sec {
            assert(sec * NANOS_PER_SECOND <= u64::MAX) by (nonlinear_arith)
                requires
                    sec <= u32::MAX,
            ;
        }
    }
}

impl<S> Proposal<S> {
    /// Without a requested start time the voting starts at the approval itself: the
    /// snapshot of a created proposal is accepted at every block time `now`, and the
    /// voting start time is exactly `now`. With a requested second it is that second in
    /// nanoseconds, accepted exactly when it is not before `now`.
    pub proof fn lemma_voting_start_default_is_now(self, now: Timestamp, sec: u32)
        requires
            self.status == ProposalStatus::Created,
        ensures
            self.spec_check_on_get_snapshot(now, None) == Ok::<(), ReviewError>(()),
            spec_voting_start_time_ns(None, now) == now,
            spec_voting_start_time_ns(Some(sec), now) == sec * 1_000_000_000,
            self.spec_check_on_get_snapshot(now, Some(sec)) is Ok <==> sec * 1_000_000_000 >= now,
    {
    }
}

} // verus!
