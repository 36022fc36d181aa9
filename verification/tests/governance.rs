use anchor_lang::prelude::Pubkey;
use token2022_amm::instructions::governance::{cancel_proposal, execute_proposal};
use token2022_amm::{AmmError, HookProposal, ProposalStatus, TransferHookWhitelist};

const DAY: i64 = 24 * 60 * 60;

fn id(n: u8) -> Pubkey {
    Pubkey::new_from_array([n; 32])
}

fn unopened() -> HookProposal {
    HookProposal {
        proposer: Pubkey::default(),
        hook_program_id: Pubkey::default(),
        description: String::new(),
        audit_report_url: String::new(),
        proposer_stake: 0,
        created_at: 0,
        voting_deadline: 0,
        status: ProposalStatus::Cancelled,
        total_approve_stake: 5,
        total_reject_stake: 6,
        votes: Vec::new(),
    }
}

fn opened(created_at: i64) -> HookProposal {
    let mut proposal = unopened();
    proposal
        .initialize(
            id(10),
            id(77),
            String::from("limits the rate of transfers"),
            String::from("https://audits.example/77"),
            HookProposal::MIN_PROPOSER_STAKE,
            created_at,
        )
        .unwrap();
    proposal
}

fn approved() -> HookProposal {
    let mut proposal = opened(0);
    proposal
        .add_vote(id(20), true, HookProposal::MIN_APPROVE_STAKE, 1)
        .unwrap();
    proposal.finalize(7 * DAY).unwrap();
    proposal
}

fn whitelist_under(authority: Pubkey) -> TransferHookWhitelist {
    let mut whitelist = TransferHookWhitelist::default();
    whitelist.initialize(authority).unwrap();
    whitelist
}

#[test]
fn constants_of_governance() {
    assert_eq!(HookProposal::VOTING_PERIOD, 604_800);
    assert_eq!(HookProposal::MIN_APPROVE_STAKE, 100_000_000_000);
    assert_eq!(HookProposal::MIN_PROPOSER_STAKE, 10_000_000_000);
}

#[test]
fn initialize_opens_an_active_proposal() {
    let proposal = opened(1_000);
    assert_eq!(proposal.proposer, id(10));
    assert_eq!(proposal.hook_program_id, id(77));
    assert_eq!(proposal.description, "limits the rate of transfers");
    assert_eq!(proposal.audit_report_url, "https://audits.example/77");
    assert_eq!(proposal.proposer_stake, 10_000_000_000);
    assert_eq!(proposal.created_at, 1_000);
    assert_eq!(proposal.voting_deadline, 1_000 + 604_800);
    assert_eq!(proposal.status, ProposalStatus::Active);
    assert_eq!(proposal.get_vote_summary(), (0, 0, 0));
    assert!(proposal.votes.is_empty());
}

#[test]
fn initialize_refuses_a_stake_below_the_minimum() {
    let mut proposal = unopened();
    assert_eq!(
        proposal.initialize(
            id(10),
            id(77),
            String::from("d"),
            String::from("u"),
            HookProposal::MIN_PROPOSER_STAKE - 1,
            1_000,
        ),
        Err(AmmError::InsufficientProposerStake)
    );
    assert_eq!(proposal.proposer, Pubkey::default());
    assert_eq!(proposal.status, ProposalStatus::Cancelled);
    assert_eq!(proposal.description, "");
    assert_eq!(proposal.get_vote_summary(), (5, 6, 0));
}

#[test]
fn votes_add_up_on_their_side() {
    let mut proposal = opened(0);
    assert_eq!(proposal.add_vote(id(20), true, 7, 10), Ok(()));
    assert_eq!(proposal.add_vote(id(21), false, 5, 11), Ok(()));
    assert_eq!(proposal.add_vote(id(22), true, 0, 12), Ok(()));
    assert_eq!(proposal.add_vote(id(23), false, 1, 13), Ok(()));
    assert_eq!(proposal.get_vote_summary(), (7, 6, 4));
    assert_eq!(proposal.votes[1].voter, id(21));
    assert!(!proposal.votes[1].vote);
    assert_eq!(proposal.votes[1].stake_amount, 5);
    assert_eq!(proposal.votes[1].timestamp, 11);
    assert_eq!(proposal.status, ProposalStatus::Active);
}

#[test]
fn nobody_votes_twice() {
    let mut proposal = opened(0);
    proposal.add_vote(id(20), true, 7, 10).unwrap();
    proposal.add_vote(id(21), false, 5, 11).unwrap();
    assert_eq!(
        proposal.add_vote(id(20), true, 1, 12),
        Err(AmmError::VoterAlreadyVoted)
    );
    assert_eq!(
        proposal.add_vote(id(20), false, 1, 12),
        Err(AmmError::VoterAlreadyVoted)
    );
    assert_eq!(
        proposal.add_vote(id(21), true, 1, 12),
        Err(AmmError::VoterAlreadyVoted)
    );
    assert_eq!(proposal.get_vote_summary(), (7, 5, 2));
    assert!(proposal.has_voted(&id(20)));
    assert!(proposal.has_voted(&id(21)));
    assert!(!proposal.has_voted(&id(22)));
}

#[test]
fn each_voter_is_on_record_once_in_any_order_of_calls() {
    let mut proposal = opened(0);
    let callers = [3u8, 1, 3, 2, 1, 1, 4, 2, 3, 4, 5, 5];
    for (at, n) in callers.iter().enumerate() {
        let _ = proposal.add_vote(id(*n), at % 2 == 0, 1, at as i64);
    }
    assert_eq!(proposal.votes.len(), 5);
    for n in 1..=5u8 {
        let count = proposal.votes.iter().filter(|v| v.voter == id(n)).count();
        assert_eq!(count, 1);
    }
}

#[test]
fn vote_is_refused_from_the_deadline_on() {
    let mut proposal = opened(1_000);
    let deadline = 1_000 + 7 * DAY;
    assert_eq!(proposal.add_vote(id(20), true, 1, deadline - 1), Ok(()));
    assert_eq!(
        proposal.add_vote(id(21), true, 1, deadline),
        Err(AmmError::VotingPeriodExpired)
    );
    assert_eq!(
        proposal.add_vote(id(21), true, 1, deadline + 1),
        Err(AmmError::VotingPeriodExpired)
    );
    // the deadline is looked at before the voter
    assert_eq!(
        proposal.add_vote(id(20), true, 1, deadline),
        Err(AmmError::VotingPeriodExpired)
    );
    assert_eq!(proposal.get_vote_summary(), (1, 0, 1));
}

#[test]
fn vote_is_refused_unless_active() {
    let mut proposal = opened(0);
    proposal.cancel().unwrap();
    assert_eq!(
        proposal.add_vote(id(20), true, 1, 1),
        Err(AmmError::ProposalNotActive)
    );
    let mut done = approved();
    assert_eq!(
        done.add_vote(id(30), true, 1, 1),
        Err(AmmError::ProposalNotActive)
    );
    assert_eq!(done.get_vote_summary(), (100_000_000_000, 0, 1));
}

#[test]
fn stake_total_that_would_overflow_is_refused() {
    let mut proposal = opened(0);
    proposal.add_vote(id(20), true, u64::MAX - 1, 1).unwrap();
    proposal.add_vote(id(21), false, u64::MAX, 1).unwrap();
    assert_eq!(
        proposal.add_vote(id(22), true, 2, 2),
        Err(AmmError::StakeOverflow)
    );
    assert_eq!(
        proposal.add_vote(id(22), false, 1, 2),
        Err(AmmError::StakeOverflow)
    );
    assert_eq!(proposal.get_vote_summary(), (u64::MAX - 1, u64::MAX, 2));
    assert!(!proposal.has_voted(&id(22)));
    assert_eq!(proposal.add_vote(id(22), true, 1, 2), Ok(()));
    assert_eq!(proposal.get_vote_summary(), (u64::MAX, u64::MAX, 3));
}

#[test]
fn finalize_before_the_deadline_fails() {
    let mut proposal = opened(1_000);
    proposal
        .add_vote(id(20), true, HookProposal::MIN_APPROVE_STAKE, 1_001)
        .unwrap();
    assert_eq!(
        proposal.finalize(1_000 + 7 * DAY - 1),
        Err(AmmError::VotingPeriodNotExpired)
    );
    assert_eq!(proposal.finalize(0), Err(AmmError::VotingPeriodNotExpired));
    assert_eq!(proposal.status, ProposalStatus::Active);
}

#[test]
fn finalize_goes_by_the_approving_stake_alone() {
    let mut carried = opened(0);
    carried
        .add_vote(id(20), true, HookProposal::MIN_APPROVE_STAKE, 1)
        .unwrap();
    carried.add_vote(id(21), false, u64::MAX, 1).unwrap();
    assert!(carried.is_approved());
    assert_eq!(carried.finalize(7 * DAY), Ok(()));
    assert_eq!(carried.status, ProposalStatus::Approved);

    let mut lost = opened(0);
    lost.add_vote(id(20), true, HookProposal::MIN_APPROVE_STAKE - 1, 1)
        .unwrap();
    assert!(!lost.is_approved());
    assert_eq!(lost.finalize(7 * DAY + 5), Ok(()));
    assert_eq!(lost.status, ProposalStatus::Rejected);

    let mut unvoted = opened(0);
    assert_eq!(unvoted.finalize(7 * DAY), Ok(()));
    assert_eq!(unvoted.status, ProposalStatus::Rejected);
}

#[test]
fn finalize_happens_once() {
    let mut proposal = approved();
    assert_eq!(
        proposal.finalize(8 * DAY),
        Err(AmmError::ProposalNotActive)
    );
    assert_eq!(proposal.status, ProposalStatus::Approved);
    let mut cancelled = opened(0);
    cancelled.cancel().unwrap();
    assert_eq!(
        cancelled.finalize(8 * DAY),
        Err(AmmError::ProposalNotActive)
    );
    // the status is looked at before the time
    assert_eq!(cancelled.finalize(0), Err(AmmError::ProposalNotActive));
}

#[test]
fn is_executable_means_approved() {
    assert!(!opened(0).is_executable());
    assert!(approved().is_executable());
    let mut rejected = opened(0);
    rejected.finalize(7 * DAY).unwrap();
    assert!(!rejected.is_executable());
}

#[test]
fn can_be_cancelled_while_active_and_before_the_deadline() {
    let proposal = opened(1_000);
    assert!(proposal.can_be_cancelled(1_000));
    assert!(proposal.can_be_cancelled(1_000 + 7 * DAY - 1));
    assert!(!proposal.can_be_cancelled(1_000 + 7 * DAY));
    assert!(!approved().can_be_cancelled(0));
}

#[test]
fn cancel_ends_an_active_proposal() {
    let mut proposal = opened(0);
    proposal.add_vote(id(20), true, 3, 1).unwrap();
    assert_eq!(proposal.cancel(), Ok(()));
    assert_eq!(proposal.status, ProposalStatus::Cancelled);
    assert_eq!(proposal.get_vote_summary(), (3, 0, 1));
    assert_eq!(proposal.cancel(), Err(AmmError::ProposalNotActive));
    assert_eq!(proposal.status, ProposalStatus::Cancelled);
}

#[test]
fn cancel_proposal_is_for_the_proposer_in_time() {
    let mut proposal = opened(1_000);
    assert_eq!(
        cancel_proposal(&mut proposal, &id(11), 1_001),
        Err(AmmError::InvalidProposalProposer)
    );
    assert_eq!(
        cancel_proposal(&mut proposal, &id(10), 1_000 + 7 * DAY),
        Err(AmmError::ProposalCannotBeCancelled)
    );
    // the caller is looked at before the time
    assert_eq!(
        cancel_proposal(&mut proposal, &id(11), 1_000 + 7 * DAY),
        Err(AmmError::InvalidProposalProposer)
    );
    assert_eq!(proposal.status, ProposalStatus::Active);
    assert_eq!(cancel_proposal(&mut proposal, &id(10), 1_000 + 7 * DAY - 1), Ok(()));
    assert_eq!(proposal.status, ProposalStatus::Cancelled);
    assert_eq!(
        cancel_proposal(&mut proposal, &id(10), 1_001),
        Err(AmmError::ProposalCannotBeCancelled)
    );
    let mut done = approved();
    assert_eq!(
        cancel_proposal(&mut done, &id(10), 1),
        Err(AmmError::ProposalCannotBeCancelled)
    );
    assert_eq!(done.status, ProposalStatus::Approved);
}

#[test]
fn execute_whitelists_the_hook_and_closes_the_proposal() {
    let mut proposal = approved();
    let mut whitelist = whitelist_under(id(1));
    assert_eq!(execute_proposal(&mut proposal, &mut whitelist, &id(1)), Ok(()));
    assert_eq!(proposal.status, ProposalStatus::Executed);
    assert!(whitelist.is_hook_whitelisted(&id(77)));
    assert_eq!(whitelist.hook_count, 1);
}

#[test]
fn execute_happens_once() {
    let mut proposal = approved();
    let mut whitelist = whitelist_under(id(1));
    execute_proposal(&mut proposal, &mut whitelist, &id(1)).unwrap();
    assert_eq!(
        execute_proposal(&mut proposal, &mut whitelist, &id(1)),
        Err(AmmError::ProposalNotExecutable)
    );
    assert_eq!(proposal.status, ProposalStatus::Executed);
    assert_eq!(whitelist.hook_count, 1);
}

#[test]
fn execute_is_for_approved_proposals() {
    let mut whitelist = whitelist_under(id(1));
    let mut active = opened(0);
    assert_eq!(
        execute_proposal(&mut active, &mut whitelist, &id(1)),
        Err(AmmError::ProposalNotExecutable)
    );
    let mut rejected = opened(0);
    rejected.finalize(7 * DAY).unwrap();
    assert_eq!(
        execute_proposal(&mut rejected, &mut whitelist, &id(1)),
        Err(AmmError::ProposalNotExecutable)
    );
    let mut cancelled = opened(0);
    cancelled.cancel().unwrap();
    assert_eq!(
        execute_proposal(&mut cancelled, &mut whitelist, &id(1)),
        Err(AmmError::ProposalNotExecutable)
    );
    // the status is looked at before the caller
    assert_eq!(
        execute_proposal(&mut cancelled, &mut whitelist, &id(2)),
        Err(AmmError::ProposalNotExecutable)
    );
    assert_eq!(whitelist.hook_count, 0);
}

#[test]
fn execute_is_for_the_authority_of_the_whitelist() {
    let mut proposal = approved();
    let mut whitelist = whitelist_under(id(1));
    assert_eq!(
        execute_proposal(&mut proposal, &mut whitelist, &id(2)),
        Err(AmmError::InvalidWhitelistAuthority)
    );
    assert_eq!(proposal.status, ProposalStatus::Approved);
    assert_eq!(whitelist.hook_count, 0);
}

#[test]
fn execute_needs_the_approving_stake() {
    let mut proposal = approved();
    proposal.total_approve_stake = HookProposal::MIN_APPROVE_STAKE - 1;
    let mut whitelist = whitelist_under(id(1));
    assert_eq!(
        execute_proposal(&mut proposal, &mut whitelist, &id(1)),
        Err(AmmError::ProposalNotApproved)
    );
    assert_eq!(proposal.status, ProposalStatus::Approved);
    assert_eq!(whitelist.hook_count, 0);
}

#[test]
fn execute_can_be_tried_again_after_the_whitelist_refused() {
    let mut proposal = approved();
    let mut whitelist = whitelist_under(id(1));
    for n in 0..32u8 {
        whitelist.add_hook(id(100 + n)).unwrap();
    }
    assert_eq!(
        execute_proposal(&mut proposal, &mut whitelist, &id(1)),
        Err(AmmError::WhitelistFull)
    );
    assert_eq!(proposal.status, ProposalStatus::Approved);
    assert_eq!(whitelist.hook_count, 32);
    whitelist.remove_hook(&id(100)).unwrap();
    assert_eq!(execute_proposal(&mut proposal, &mut whitelist, &id(1)), Ok(()));
    assert_eq!(proposal.status, ProposalStatus::Executed);
    assert_eq!(whitelist.whitelisted_hooks[31], id(77));
}

#[test]
fn execute_of_a_hook_that_is_whitelisted_fails() {
    let mut proposal = approved();
    let mut whitelist = whitelist_under(id(1));
    whitelist.add_hook(id(77)).unwrap();
    assert_eq!(
        execute_proposal(&mut proposal, &mut whitelist, &id(1)),
        Err(AmmError::HookAlreadyWhitelisted)
    );
    assert_eq!(proposal.status, ProposalStatus::Approved);
    assert_eq!(whitelist.hook_count, 1);
}
