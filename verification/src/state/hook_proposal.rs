//! A proposal to admit one hook program to the whitelist, decided by stake-weighted
//! votes. A proposal is active until it is cancelled or, once its voting period is
//! over, finalized; whoever votes does so once.
use crate::error::{committed, AmmError};
use crate::pubkey::same_key;
use anchor_lang::prelude::Pubkey;
use vstd::prelude::*;

verus! {

/// Where a proposal stands. `Active` leads to `Cancelled`, `Approved` or `Rejected`,
/// and `Approved` to `Executed`; nothing else ever changes.
#[derive(Clone, Copy, Debug, PartialEq, Eq, Structural)]
pub enum ProposalStatus {
    Active,
    Approved,
    Rejected,
    Cancelled,
    Executed,
}

/// One vote on a proposal.
#[derive(Clone, Copy, Debug)]
pub struct Vote {
    /// Who voted.
    pub voter: Pubkey,
    /// `true` to approve, `false` to reject.
    pub vote: bool,
    /// The weight of the vote.
    pub stake_amount: u64,
    /// When the vote was cast.
    pub timestamp: i64,
}

/// A request to whitelist a hook program, with the votes cast on it.
#[derive(Debug)]
pub struct HookProposal {
    /// Who opened the proposal.
    pub proposer: Pubkey,
    /// The hook program to admit.
    pub hook_program_id: Pubkey,
    /// What the hook program does, in the proposer's words.
    pub description: String,
    /// Where the hook program's audit report can be read.
    pub audit_report_url: String,
    /// The collateral that the proposer put up.
    pub proposer_stake: u64,
    /// When the proposal was opened.
    pub created_at: i64,
    /// From when on no vote is accepted.
    pub voting_deadline: i64,
    /// Where the proposal stands.
    pub status: ProposalStatus,
    /// The stake of all approving votes.
    pub total_approve_stake: u64,
    /// The stake of all rejecting votes.
    pub total_reject_stake: u64,
    /// The votes in the order in which they were cast.
    pub votes: Vec<Vote>,
}

/// The stake that `votes` put behind one side: behind approval if `approve`, behind
/// rejection otherwise.
pub open spec fn tally(votes: Seq<Vote>, approve: bool) -> nat
    decreases votes.len(),
{
    if votes.len() == 0 {
        0
    } else {
        let rest = tally(votes.drop_last(), approve);
        if votes.last().vote == approve {
            rest + votes.last().stake_amount as nat
        } else {
            rest
        }
    }
}

/// A proposal as a mathematical value.
pub struct ProposalView {
    pub proposer: Pubkey,
    pub hook_program_id: Pubkey,
    pub description: Seq<char>,
    pub audit_report_url: Seq<char>,
    pub proposer_stake: u64,
    pub created_at: i64,
    pub voting_deadline: i64,
    pub status: ProposalStatus,
    pub total_approve_stake: u64,
    pub total_reject_stake: u64,
    pub votes: Seq<Vote>,
}

impl ProposalView {
    /// The proposer's stake reaches the minimum, the deadline lies one voting period
    /// after creation, nobody has voted twice, and both totals are the sums of the
    /// votes on their side.
    pub open spec fn wf(self) -> bool {
        &&& self.proposer_stake >= HookProposal::MIN_PROPOSER_STAKE
        &&& self.voting_deadline == self.created_at + HookProposal::VOTING_PERIOD
        &&& forall|i: int, j: int|
            0 <= i < j < self.votes.len() ==> self.votes[i].voter != self.votes[j].voter
        &&& self.total_approve_stake == tally(self.votes, true)
        &&& self.total_reject_stake == tally(self.votes, false)
    }

    /// `voter` has a vote on record.
    pub open spec fn has_voted(self, voter: Pubkey) -> bool {
        exists|i: int| 0 <= i < self.votes.len() && self.votes[i].voter == voter
    }

    /// The approving stake reaches the threshold. The rejecting stake plays no part.
    pub open spec fn is_approved(self) -> bool {
        self.total_approve_stake >= HookProposal::MIN_APPROVE_STAKE
    }

    /// The outcome of opening a proposal.
    pub open spec fn create(
        proposer: Pubkey,
        hook_program_id: Pubkey,
        description: Seq<char>,
        audit_report_url: Seq<char>,
        proposer_stake: u64,
        created_at: i64,
    ) -> Result<ProposalView, AmmError> {
        if proposer_stake < HookProposal::MIN_PROPOSER_STAKE {
            Err(AmmError::InsufficientProposerStake)
        } else {
            Ok(
                ProposalView {
                    proposer,
                    hook_program_id,
                    description,
                    audit_report_url,
                    proposer_stake,
                    created_at,
                    voting_deadline: (created_at + HookProposal::VOTING_PERIOD) as i64,
                    status: ProposalStatus::Active,
                    total_approve_stake: 0,
                    total_reject_stake: 0,
                    votes: Seq::empty(),
                },
            )
        }
    }

    /// The outcome of a vote by `voter` at time `now`.
    pub open spec fn vote(self, voter: Pubkey, approve: bool, stake_amount: u64, now: i64) -> Result<
        ProposalView,
        AmmError,
    > {
        let cast = Vote { voter, vote: approve, stake_amount, timestamp: now };
        if self.status != ProposalStatus::Active {
            Err(AmmError::ProposalNotActive)
        } else if now >= self.voting_deadline {
            Err(AmmError::VotingPeriodExpired)
        } else if self.has_voted(voter) {
            Err(AmmError::VoterAlreadyVoted)
        } else if approve {
            if self.total_approve_stake + stake_amount > u64::MAX {
                Err(AmmError::StakeOverflow)
            } else {
                Ok(
                    ProposalView {
                        total_approve_stake: (self.total_approve_stake + stake_amount) as u64,
                        votes: self.votes.push(cast),
                        ..self
                    },
                )
            }
        } else {
            if self.total_reject_stake + stake_amount > u64::MAX {
                Err(AmmError::StakeOverflow)
            } else {
                Ok(
                    ProposalView {
                        total_reject_stake: (self.total_reject_stake + stake_amount) as u64,
                        votes: self.votes.push(cast),
                        ..self
                    },
                )
            }
        }
    }

    /// The proposal can be cancelled at time `now`: it is active and its voting period
    /// is not over.
    pub open spec fn can_be_cancelled(self, now: i64) -> bool {
        self.status == ProposalStatus::Active && now < self.voting_deadline
    }

    /// The outcome of withdrawing the proposal.
    pub open spec fn cancel(self) -> Result<ProposalView, AmmError> {
        if self.status != ProposalStatus::Active {
            Err(AmmError::ProposalNotActive)
        } else {
            Ok(ProposalView { status: ProposalStatus::Cancelled, ..self })
        }
    }

    /// The outcome of closing the vote at time `now`.
    pub open spec fn finalize(self, now: i64) -> Result<ProposalView, AmmError> {
        if self.status != ProposalStatus::Active {
            Err(AmmError::ProposalNotActive)
        } else if now < self.voting_deadline {
            Err(AmmError::VotingPeriodNotExpired)
        } else if self.is_approved() {
            Ok(ProposalView { status: ProposalStatus::Approved, ..self })
        } else {
            Ok(ProposalView { status: ProposalStatus::Rejected, ..self })
        }
    }

    /// The proposal once it has been carried out.
    pub open spec fn executed(self) -> ProposalView {
        ProposalView { status: ProposalStatus::Executed, ..self }
    }
}

impl View for HookProposal {
    type V = ProposalView;

    open spec fn view(&self) -> ProposalView {
        ProposalView {
            proposer: self.proposer,
            hook_program_id: self.hook_program_id,
            description: self.description@,
            audit_report_url: self.audit_report_url@,
            proposer_stake: self.proposer_stake,
            created_at: self.created_at,
            voting_deadline: self.voting_deadline,
            status: self.status,
            total_approve_stake: self.total_approve_stake,
            total_reject_stake: self.total_reject_stake,
            votes: self.votes@,
        }
    }
}

impl HookProposal {
    /// Seven days, in seconds: the time from a proposal's creation to its deadline.
    pub const VOTING_PERIOD: i64 = 7 * 24 * 60 * 60;

    /// The approving stake from which a proposal passes.
    pub const MIN_APPROVE_STAKE: u64 = 100 * 1_000_000_000;

    /// The least stake with which a proposal can be opened.
    pub const MIN_PROPOSER_STAKE: u64 = 10 * 1_000_000_000;

    /// Opens the proposal: it becomes active, without votes, and its voting period
    /// starts at `created_at`. A stake below the minimum is refused.
    pub fn initialize(
        &mut self,
        proposer: Pubkey,
        hook_program_id: Pubkey,
        description: String,
        audit_report_url: String,
        proposer_stake: u64,
        created_at: i64,
    ) -> (result: Result<(), AmmError>)
        requires
            proposer_stake >= HookProposal::MIN_PROPOSER_STAKE ==> created_at
                + HookProposal::VOTING_PERIOD <= i64::MAX,
        ensures
            committed(
                old(self)@,
                final(self)@,
                result,
                ProposalView::create(
                    proposer,
                    hook_program_id,
                    description@,
                    audit_report_url@,
                    proposer_stake,
                    created_at,
                ),
            ),
            result is Ok ==> final(self)@.wf(),
    {
        if proposer_stake < HookProposal::MIN_PROPOSER_STAKE {
            return Err(AmmError::InsufficientProposerStake);
        }
        self.proposer = proposer;
        self.hook_program_id = hook_program_id;
        self.description = description;
        self.audit_report_url = audit_report_url;
        self.proposer_stake = proposer_stake;
        self.created_at = created_at;
        self.voting_deadline = created_at + HookProposal::VOTING_PERIOD;
        self.status = ProposalStatus::Active;
        self.total_approve_stake = 0;
        self.total_reject_stake = 0;
        self.votes = Vec::new();
        Ok(())
    }

    /// Tells whether `voter` has a vote on record.
    pub fn has_voted(&self, voter: &Pubkey) -> (found: bool)
        ensures
            found == self@.has_voted(*voter),
    {
        let mut i: usize = 0;
        while i < self.votes.len()
            invariant
                i <= self.votes.len(),
                forall|j: int| 0 <= j < i ==> self.votes@[j].voter != *voter,
            decreases self.votes.len() - i,
        {
            if same_key(&self.votes[i].voter, voter) {
                assert(self@.votes[i as int].voter == *voter);
                return true;
            }
            i += 1;
        }
        false
    }

    /// Records the vote of `voter`, cast at time `now`, and adds its stake to the total
    /// of its side.
    pub fn add_vote(&mut self, voter: Pubkey, vote: bool, stake_amount: u64, now: i64) -> (result:
        Result<(), AmmError>)
        ensures
            committed(old(self)@, final(self)@, result, old(self)@.vote(voter, vote, stake_amount, now)),
            old(self)@.wf() ==> final(self)@.wf(),
    {
        if self.status != ProposalStatus::Active {
            return Err(AmmError::ProposalNotActive);
        }
        if now >= self.voting_deadline {
            return Err(AmmError::VotingPeriodExpired);
        }
        if self.has_voted(&voter) {
            return Err(AmmError::VoterAlreadyVoted);
        }
        let cast = Vote { voter, vote, stake_amount, timestamp: now };
        if vote {
            match self.total_approve_stake.checked_add(stake_amount) {
                Some(total) => {
                    self.total_approve_stake = total;
                },
                None => {
                    return Err(AmmError::StakeOverflow);
                },
            }
        } else {
            match self.total_reject_stake.checked_add(stake_amount) {
                Some(total) => {
                    self.total_reject_stake = total;
                },
                None => {
                    return Err(AmmError::StakeOverflow);
                },
            }
        }
        self.votes.push(cast);
        proof {
            lemma_tally_push(old(self)@.votes, cast, true);
            lemma_tally_push(old(self)@.votes, cast, false);
        }
        Ok(())
    }

    /// Tells whether the proposal has been approved and can be carried out.
    pub fn is_executable(&self) -> (executable: bool)
        ensures
            executable == (self.status == ProposalStatus::Approved),
    {
        self.status == ProposalStatus::Approved
    }

    /// Tells whether the approving stake reaches the threshold.
    pub fn is_approved(&self) -> (approved: bool)
        ensures
            approved == self@.is_approved(),
    {
        self.total_approve_stake >= HookProposal::MIN_APPROVE_STAKE
    }

    /// Tells whether the proposal can be cancelled at time `now`.
    pub fn can_be_cancelled(&self, now: i64) -> (cancellable: bool)
        ensures
            cancellable == self@.can_be_cancelled(now),
    {
        self.status == ProposalStatus::Active && now < self.voting_deadline
    }

    /// Withdraws the proposal, if it is still active.
    pub fn cancel(&mut self) -> (result: Result<(), AmmError>)
        ensures
            committed(old(self)@, final(self)@, result, old(self)@.cancel()),
            old(self)@.wf() ==> final(self)@.wf(),
    {
        if self.status != ProposalStatus::Active {
            return Err(AmmError::ProposalNotActive);
        }
        self.status = ProposalStatus::Cancelled;
        Ok(())
    }

    /// Closes the vote at time `now`, at or after the deadline: the proposal is
    /// approved if the approving stake reaches the threshold, and rejected if not.
    pub fn finalize(&mut self, now: i64) -> (result: Result<(), AmmError>)
        ensures
            committed(old(self)@, final(self)@, result, old(self)@.finalize(now)),
            old(self)@.wf() ==> final(self)@.wf(),
    {
        if self.status != ProposalStatus::Active {
            return Err(AmmError::ProposalNotActive);
        }
        if now < self.voting_deadline {
            return Err(AmmError::VotingPeriodNotExpired);
        }
        if self.is_approved() {
            self.status = ProposalStatus::Approved;
        } else {
            self.status = ProposalStatus::Rejected;
        }
        Ok(())
    }

    /// The approving stake, the rejecting stake and the number of votes.
    pub fn get_vote_summary(&self) -> (summary: (u64, u64, u64))
        ensures
            summary == (self.total_approve_stake, self.total_reject_stake, self.votes@.len() as u64),
            summary.2 == self.votes@.len(),
    {
        (self.total_approve_stake, self.total_reject_stake, self.votes.len() as u64)
    }
}

/// One more vote adds its stake to the total of its side and leaves the other total
/// as it was.
pub proof fn lemma_tally_push(votes: Seq<Vote>, cast: Vote, approve: bool)
    ensures
        tally(votes.push(cast), approve) == tally(votes, approve) + if cast.vote == approve {
            cast.stake_amount as nat
        } else {
            0
        },
{
    assert(votes.push(cast).drop_last() =~= votes);
    assert(votes.push(cast).last() == cast);
}

/// The status that a step leaves behind is the one it found, or one that the life of a
/// proposal allows next: an active proposal ends up cancelled, approved or rejected,
/// and an approved one executed.
pub open spec fn moves_forward(before: ProposalStatus, after: ProposalStatus) -> bool {
    ||| after == before
    ||| before == ProposalStatus::Active && (after == ProposalStatus::Cancelled || after
        == ProposalStatus::Approved || after == ProposalStatus::Rejected)
    ||| before == ProposalStatus::Approved && after == ProposalStatus::Executed
}

/// A proposal that has just been opened is well formed, active and without votes.
pub proof fn law_created_proposal_is_well_formed(
    proposer: Pubkey,
    hook_program_id: Pubkey,
    description: Seq<char>,
    audit_report_url: Seq<char>,
    proposer_stake: u64,
    created_at: i64,
)
    requires
        created_at + HookProposal::VOTING_PERIOD <= i64::MAX,
    ensures
        match ProposalView::create(
            proposer,
            hook_program_id,
            description,
            audit_report_url,
            proposer_stake,
            created_at,
        ) {
            Ok(proposal) => {
                &&& proposer_stake >= HookProposal::MIN_PROPOSER_STAKE
                &&& proposal.wf()
                &&& proposal.status == ProposalStatus::Active
                &&& proposal.votes.len() == 0
                &&& proposal.voting_deadline == created_at + 604_800
            },
            Err(e) => e == AmmError::InsufficientProposerStake && proposer_stake
                < HookProposal::MIN_PROPOSER_STAKE,
        },
{
}

/// Voting, cancelling, finalizing and executing keep a proposal well formed, move its
/// status forward only, and never lower a stake total or drop a vote.
pub proof fn law_steps_keep_proposal_well_formed(
    proposal: ProposalView,
    voter: Pubkey,
    approve: bool,
    stake_amount: u64,
    now: i64,
)
    requires
        proposal.wf(),
    ensures
        proposal.vote(voter, approve, stake_amount, now) matches Ok(next) ==> {
            &&& next.wf()
            &&& next.status == proposal.status
            &&& next.total_approve_stake >= proposal.total_approve_stake
            &&& next.total_reject_stake >= proposal.total_reject_stake
            &&& next.votes.len() == proposal.votes.len() + 1
            &&& next.votes.drop_last() == proposal.votes
        },
        proposal.cancel() matches Ok(next) ==> next.wf() && moves_forward(
            proposal.status,
            next.status,
        ) && next.votes == proposal.votes,
        proposal.finalize(now) matches Ok(next) ==> next.wf() && moves_forward(
            proposal.status,
            next.status,
        ) && next.votes == proposal.votes,
        proposal.status == ProposalStatus::Approved ==> proposal.executed().wf() && moves_forward(
            proposal.status,
            proposal.executed().status,
        ) && proposal.executed().votes == proposal.votes,
{
    if proposal.vote(voter, approve, stake_amount, now) is Ok {
        let cast = Vote { voter, vote: approve, stake_amount, timestamp: now };
        let next = proposal.vote(voter, approve, stake_amount, now)->Ok_0;
        lemma_tally_push(proposal.votes, cast, true);
        lemma_tally_push(proposal.votes, cast, false);
        assert(next.votes.drop_last() =~= proposal.votes);
    }
}

/// Nobody votes twice on a proposal: once a vote is on record, every later vote of the
/// same voter is refused, whatever it says and whenever it comes.
pub proof fn law_one_vote_per_voter(
    proposal: ProposalView,
    voter: Pubkey,
    approve: bool,
    stake_amount: u64,
    now: i64,
)
    requires
        proposal.has_voted(voter),
    ensures
        proposal.vote(voter, approve, stake_amount, now) is Err,
        proposal.status == ProposalStatus::Active && now < proposal.voting_deadline
            ==> proposal.vote(voter, approve, stake_amount, now) == Err::<ProposalView, AmmError>(
            AmmError::VoterAlreadyVoted,
        ),
{
}

/// A vote that is accepted puts its voter on record, and whoever was on record before
/// stays there. No other step touches the votes.
pub proof fn law_votes_stay_on_record(
    proposal: ProposalView,
    voter: Pubkey,
    approve: bool,
    stake_amount: u64,
    now: i64,
    earlier: Pubkey,
)
    requires
        proposal.vote(voter, approve, stake_amount, now) is Ok,
    ensures
        !proposal.has_voted(voter),
        proposal.vote(voter, approve, stake_amount, now)->Ok_0.has_voted(voter),
        proposal.has_voted(earlier) ==> proposal.vote(
            voter,
            approve,
            stake_amount,
            now,
        )->Ok_0.has_voted(earlier),
{
    let next = proposal.vote(voter, approve, stake_amount, now)->Ok_0;
    assert(next.votes[proposal.votes.len() as int].voter == voter);
    if proposal.has_voted(earlier) {
        let i = choose|i: int| 0 <= i < proposal.votes.len() && proposal.votes[i].voter == earlier;
        assert(next.votes[i].voter == earlier);
    }
}

/// Before the voting deadline a proposal cannot be finalized. From the deadline on an
/// active proposal always can, and is approved exactly if the approving stake has
/// reached one hundred units of 10^9; otherwise it is rejected.
pub proof fn law_finalize_is_decided_by_time_and_approving_stake(proposal: ProposalView, now: i64)
    ensures
        now < proposal.voting_deadline ==> proposal.finalize(now) is Err,
        proposal.status == ProposalStatus::Active && now < proposal.voting_deadline
            ==> proposal.finalize(now) == Err::<ProposalView, AmmError>(
            AmmError::VotingPeriodNotExpired,
        ),
        proposal.status == ProposalStatus::Active && now >= proposal.voting_deadline ==> {
            &&& proposal.finalize(now) matches Ok(next)
            &&& (next.status == ProposalStatus::Approved <==> proposal.total_approve_stake
                >= 100_000_000_000)
            &&& (next.status == ProposalStatus::Rejected <==> proposal.total_approve_stake
                < 100_000_000_000)
        },
{
}

/// A proposal that was cancelled, rejected or executed never changes again.
pub proof fn law_closed_proposal_is_immutable(
    proposal: ProposalView,
    voter: Pubkey,
    approve: bool,
    stake_amount: u64,
    now: i64,
)
    requires
        proposal.status == ProposalStatus::Cancelled || proposal.status == ProposalStatus::Rejected
            || proposal.status == ProposalStatus::Executed,
    ensures
        proposal.vote(voter, approve, stake_amount, now) is Err,
        proposal.cancel() is Err,
        proposal.finalize(now) is Err,
{
}

} // verus!
