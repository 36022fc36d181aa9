//! The failures that the engine reports.
use vstd::prelude::*;

verus! {

/// Why an operation was refused. An operation that returns one of these has changed
/// nothing.
#[derive(Clone, Copy, Debug, PartialEq, Eq, Structural)]
pub enum AmmError {
    /// A failure without a kind of its own. The engine never reports it.
    CustomError,
    /// The caller is not the authority stored in the whitelist.
    InvalidWhitelistAuthority,
    /// The caller is not the authority stored in the pool.
    InvalidPoolAuthority,
    /// The hook program is not in the whitelist.
    HookNotWhitelisted,
    /// The hook program is already in the whitelist.
    HookAlreadyWhitelisted,
    /// The whitelist holds as many hook programs as it can.
    WhitelistFull,
    /// A swap would pay out nothing, or less than the caller's minimum.
    InsufficientOutputAmount,
    /// A reserve is empty, or too small for the amount requested.
    InsufficientLiquidity,
    /// Fewer LP tokens than required would be minted, or more burned than exist.
    InsufficientLPTokens,
    /// A withdrawal would return less of token A than the caller's minimum.
    InsufficientTokenA,
    /// A withdrawal would return less of token B than the caller's minimum.
    InsufficientTokenB,
    /// An amount is zero.
    InvalidAmount,
    /// A slippage tolerance is out of range. The engine never reports it.
    InvalidSlippageTolerance,
    /// A pool for the pair exists. The engine never reports it.
    PoolAlreadyExists,
    /// No pool for the pair exists. The engine never reports it.
    PoolNotFound,
    /// The two tokens cannot form a pair. The engine never reports it.
    InvalidTokenPair,
    /// The proposer staked less than the minimum.
    InsufficientProposerStake,
    /// The proposal has left the active state.
    ProposalNotActive,
    /// A vote arrived at or after the voting deadline.
    VotingPeriodExpired,
    /// The voter has already voted on the proposal.
    VoterAlreadyVoted,
    /// A stake tally would exceed the largest representable amount.
    StakeOverflow,
    /// The proposal has not been approved, or was executed before.
    ProposalNotExecutable,
    /// The approving stake is below the threshold.
    ProposalNotApproved,
    /// The proposal is no longer active, or its voting period is over.
    ProposalCannotBeCancelled,
    /// The voting deadline has not been reached.
    VotingPeriodNotExpired,
    /// The caller is not the proposer.
    InvalidProposalProposer,
}

impl AmmError {
    /// The text of the message that goes with the failure.
    pub open spec fn message_text(self) -> Seq<char> {
        match self {
            AmmError::CustomError => "Custom error message"@,
            AmmError::InvalidWhitelistAuthority => "Invalid whitelist authority"@,
            AmmError::InvalidPoolAuthority => "Invalid pool authority"@,
            AmmError::HookNotWhitelisted => "Hook not whitelisted"@,
            AmmError::HookAlreadyWhitelisted => "Hook already whitelisted"@,
            AmmError::WhitelistFull => "Whitelist is full"@,
            AmmError::InsufficientOutputAmount => "Insufficient output amount"@,
            AmmError::InsufficientLiquidity => "Insufficient liquidity"@,
            AmmError::InsufficientLPTokens => "Insufficient LP tokens"@,
            AmmError::InsufficientTokenA => "Insufficient token A"@,
            AmmError::InsufficientTokenB => "Insufficient token B"@,
            AmmError::InvalidAmount => "Invalid amount"@,
            AmmError::InvalidSlippageTolerance => "Invalid slippage tolerance"@,
            AmmError::PoolAlreadyExists => "Pool already exists"@,
            AmmError::PoolNotFound => "Pool not found"@,
            AmmError::InvalidTokenPair => "Invalid token pair"@,
            AmmError::InsufficientProposerStake => "Insufficient proposer stake"@,
            AmmError::ProposalNotActive => "Proposal not active"@,
            AmmError::VotingPeriodExpired => "Voting period expired"@,
            AmmError::VoterAlreadyVoted => "Voter already voted"@,
            AmmError::StakeOverflow => "Stake overflow"@,
            AmmError::ProposalNotExecutable => "Proposal not executable"@,
            AmmError::ProposalNotApproved => "Proposal not approved"@,
            AmmError::ProposalCannotBeCancelled => "Proposal cannot be cancelled"@,
            AmmError::VotingPeriodNotExpired => "Voting period not expired"@,
            AmmError::InvalidProposalProposer => "Invalid proposal proposer"@,
        }
    }

    /// The message that goes with the failure.
    pub fn message(&self) -> (text: &'static str)
        ensures
            text@ == self.message_text(),
    {
        match self {
            AmmError::CustomError => "Custom error message",
            AmmError::InvalidWhitelistAuthority => "Invalid whitelist authority",
            AmmError::InvalidPoolAuthority => "Invalid pool authority",
            AmmError::HookNotWhitelisted => "Hook not whitelisted",
            AmmError::HookAlreadyWhitelisted => "Hook already whitelisted",
            AmmError::WhitelistFull => "Whitelist is full",
            AmmError::InsufficientOutputAmount => "Insufficient output amount",
            AmmError::InsufficientLiquidity => "Insufficient liquidity",
            AmmError::InsufficientLPTokens => "Insufficient LP tokens",
            AmmError::InsufficientTokenA => "Insufficient token A",
            AmmError::InsufficientTokenB => "Insufficient token B",
            AmmError::InvalidAmount => "Invalid amount",
            AmmError::InvalidSlippageTolerance => "Invalid slippage tolerance",
            AmmError::PoolAlreadyExists => "Pool already exists",
            AmmError::PoolNotFound => "Pool not found",
            AmmError::InvalidTokenPair => "Invalid token pair",
            AmmError::InsufficientProposerStake => "Insufficient proposer stake",
            AmmError::ProposalNotActive => "Proposal not active",
            AmmError::VotingPeriodExpired => "Voting period expired",
            AmmError::VoterAlreadyVoted => "Voter already voted",
            AmmError::StakeOverflow => "Stake overflow",
            AmmError::ProposalNotExecutable => "Proposal not executable",
            AmmError::ProposalNotApproved => "Proposal not approved",
            AmmError::ProposalCannotBeCancelled => "Proposal cannot be cancelled",
            AmmError::VotingPeriodNotExpired => "Voting period not expired",
            AmmError::InvalidProposalProposer => "Invalid proposal proposer",
        }
    }
}

/// What an all-or-nothing operation owes its caller, given the outcome that the model
/// prescribes: on success the state the model names, on failure the model's error and
/// the state as it was.
pub open spec fn committed<S>(
    before: S,
    after: S,
    result: Result<(), AmmError>,
    expected: Result<S, AmmError>,
) -> bool {
    match expected {
        Ok(next) => result is Ok && after == next,
        Err(e) => result == Err::<(), AmmError>(e) && after == before,
    }
}

/// What an all-or-nothing operation that hands back a value owes its caller, given the
/// outcome that the model prescribes: on success the model's value and state, on
/// failure the model's error and the state as it was.
pub open spec fn settled<S, T>(
    before: S,
    after: S,
    result: Result<T, AmmError>,
    expected: Result<(S, T), AmmError>,
) -> bool {
    match expected {
        Ok((next, value)) => result == Ok::<T, AmmError>(value) && after == next,
        Err(e) => result == Err::<T, AmmError>(e) && after == before,
    }
}

} // verus!
