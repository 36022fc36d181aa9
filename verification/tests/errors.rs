use token2022_amm::AmmError;

#[test]
fn every_failure_has_its_message() {
    let expected = [
        (AmmError::CustomError, "Custom error message"),
        (AmmError::InvalidWhitelistAuthority, "Invalid whitelist authority"),
        (AmmError::InvalidPoolAuthority, "Invalid pool authority"),
        (AmmError::HookNotWhitelisted, "Hook not whitelisted"),
        (AmmError::HookAlreadyWhitelisted, "Hook already whitelisted"),
        (AmmError::WhitelistFull, "Whitelist is full"),
        (AmmError::InsufficientOutputAmount, "Insufficient output amount"),
        (AmmError::InsufficientLiquidity, "Insufficient liquidity"),
        (AmmError::InsufficientLPTokens, "Insufficient LP tokens"),
        (AmmError::InsufficientTokenA, "Insufficient token A"),
        (AmmError::InsufficientTokenB, "Insufficient token B"),
        (AmmError::InvalidAmount, "Invalid amount"),
        (AmmError::InvalidSlippageTolerance, "Invalid slippage tolerance"),
        (AmmError::PoolAlreadyExists, "Pool already exists"),
        (AmmError::PoolNotFound, "Pool not found"),
        (AmmError::InvalidTokenPair, "Invalid token pair"),
        (AmmError::InsufficientProposerStake, "Insufficient proposer stake"),
        (AmmError::ProposalNotActive, "Proposal not active"),
        (AmmError::VotingPeriodExpired, "Voting period expired"),
        (AmmError::VoterAlreadyVoted, "Voter already voted"),
        (AmmError::StakeOverflow, "Stake overflow"),
        (AmmError::ProposalNotExecutable, "Proposal not executable"),
        (AmmError::ProposalNotApproved, "Proposal not approved"),
        (AmmError::ProposalCannotBeCancelled, "Proposal cannot be cancelled"),
        (AmmError::VotingPeriodNotExpired, "Voting period not expired"),
        (AmmError::InvalidProposalProposer, "Invalid proposal proposer"),
    ];
    for (failure, message) in expected {
        assert_eq!(failure.message(), message);
    }
}

#[test]
fn failures_compare_by_kind() {
    assert_eq!(AmmError::InvalidAmount, AmmError::InvalidAmount);
    assert_ne!(AmmError::InvalidAmount, AmmError::InsufficientLiquidity);
    let copy = AmmError::WhitelistFull;
    assert_eq!(copy.clone(), AmmError::WhitelistFull);
}
