use venear::fraction::Fraction;
use venear::growth::{VenearGrowthConfig, VenearGrowthConfigFixedRate};
use venear::review::{assert_called_by_reviewer, Proposal, ProposalStatus, ReviewError, SnapshotRequest};

const NOW: u64 = 1_700_000_000_000_000_000;

fn proposal() -> Proposal<u64> {
    Proposal {
        id: 7,
        status: ProposalStatus::Created,
        rejected: false,
        reviewer_id: None,
        voting_start_time_ns: None,
        snapshot_and_state: None,
    }
}

fn reject(p: &mut Proposal<u64>, deposit: u128, caller: &str) -> Result<(), ReviewError> {
    let caller = caller.to_string();
    p.check_decision(deposit, &reviewers(), &caller)?;
    p.reject_proposal(deposit, &reviewers(), &caller);
    Ok(())
}

fn approve(p: &Proposal<u64>, deposit: u128, caller: &str, start: Option<u32>) -> Result<SnapshotRequest, ReviewError> {
    let caller = caller.to_string();
    p.check_decision(deposit, &reviewers(), &caller)?;
    Ok(p.approve_proposal(deposit, &reviewers(), &caller, start))
}

fn snapshot(p: &mut Proposal<u64>, snap: u64, total: u128, now: u64, start: Option<u32>) -> Result<(), ReviewError> {
    p.check_on_get_snapshot(now, start)?;
    p.on_get_snapshot(snap, total, growth(), "voting.near".to_string(), now, start);
    Ok(())
}

fn reviewers() -> Vec<String> {
    vec!["alice.near".to_string(), "bob.near".to_string()]
}

fn growth() -> VenearGrowthConfig {
    VenearGrowthConfigFixedRate {
        annual_growth_rate_ns: Fraction { numerator: 6, denominator: 3_153_600_000_000_000_000 },
    }
    .into()
}

#[test]
fn only_listed_accounts_are_reviewers() {
    let ids = reviewers();
    assert_eq!(assert_called_by_reviewer(&ids, &"bob.near".to_string()), Ok(()));
    assert_eq!(
        assert_called_by_reviewer(&ids, &"carol.near".to_string()),
        Err(ReviewError::NotReviewer)
    );
    assert_eq!(assert_called_by_reviewer(&vec![], &"bob.near".to_string()), Err(ReviewError::NotReviewer));
}

#[test]
fn reject_marks_the_proposal() {
    let mut p = proposal();
    assert_eq!(reject(&mut p, 1, "alice.near"), Ok(()));
    assert_eq!(p.status, ProposalStatus::Rejected);
    assert!(p.rejected);
    assert_eq!(p.reviewer_id, Some("alice.near".to_string()));
    assert_eq!(p.voting_start_time_ns, None);
}

#[test]
fn reject_refusals_leave_the_proposal() {
    let mut p = proposal();
    assert_eq!(reject(&mut p, 0, "alice.near"), Err(ReviewError::RequiresOneYocto));
    assert_eq!(reject(&mut p, 1, "eve.near"), Err(ReviewError::NotReviewer));
    assert_eq!(p.status, ProposalStatus::Created);
    assert!(!p.rejected);
    assert_eq!(p.reviewer_id, None);
}

#[test]
fn approval_checks() {
    let p = proposal();
    assert_eq!(approve(&p, 1, "bob.near", Some(9)), Ok(SnapshotRequest { proposal_id: 7, voting_start_time_sec: Some(9) }));
    assert_eq!(approve(&p, 2, "bob.near", None), Err(ReviewError::RequiresOneYocto));
    assert_eq!(approve(&p, 1, "eve.near", None), Err(ReviewError::NotReviewer));
}

#[test]
fn snapshot_completes_the_approval_now() {
    let mut p = proposal();
    assert_eq!(snapshot(&mut p, 42, 1000, NOW, None), Ok(()));
    assert_eq!(p.status, ProposalStatus::Approved);
    assert_eq!(p.voting_start_time_ns, Some(NOW));
    assert_eq!(p.reviewer_id, Some("voting.near".to_string()));
    let s = p.snapshot_and_state.as_ref().unwrap();
    assert_eq!(s.snapshot, 42);
    assert_eq!(s.timestamp_ns, NOW);
    assert_eq!(s.total_venear, 1000);
}

#[test]
fn snapshot_with_a_later_start() {
    let mut p = proposal();
    let start_sec: u32 = 1_800_000_000;
    assert_eq!(snapshot(&mut p, 1, 5, NOW, Some(start_sec)), Ok(()));
    assert_eq!(p.voting_start_time_ns, Some(1_800_000_000_000_000_000));
}

#[test]
fn snapshot_refuses_a_start_in_the_past() {
    let mut p = proposal();
    let r = snapshot(&mut p, 1, 5, NOW, Some(1_600_000_000));
    assert_eq!(r, Err(ReviewError::VotingStartInPast));
    assert_eq!(p.status, ProposalStatus::Created);
    assert_eq!(p.voting_start_time_ns, None);
    assert!(p.snapshot_and_state.is_none());
}

#[test]
fn a_reviewed_proposal_cannot_be_reviewed_again() {
    let mut p = proposal();
    assert_eq!(reject(&mut p, 1, "alice.near"), Ok(()));
    assert_eq!(reject(&mut p, 1, "bob.near"), Err(ReviewError::NotCreated));
    assert_eq!(approve(&p, 1, "bob.near", None), Err(ReviewError::NotCreated));
    assert_eq!(
        snapshot(&mut p, 1, 5, NOW, None),
        Err(ReviewError::NotCreated)
    );
    let mut q = proposal();
    assert_eq!(snapshot(&mut q, 1, 5, NOW, None), Ok(()));
    assert_eq!(reject(&mut q, 1, "alice.near"), Err(ReviewError::NotCreated));
    assert_eq!(q.status, ProposalStatus::Approved);
}
