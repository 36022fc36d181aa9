use token2022_amm::safe_transfer_hook::{execute, SafeTransferHookError};

#[test]
fn hook_lets_positive_amounts_pass() {
    assert_eq!(execute(1), Ok(()));
    assert_eq!(execute(u64::MAX), Ok(()));
}

#[test]
fn hook_refuses_a_transfer_of_nothing() {
    assert_eq!(execute(0), Err(SafeTransferHookError::InvalidAmount));
}

#[test]
fn hook_refusals_have_messages() {
    assert_eq!(
        SafeTransferHookError::InvalidAmount.message(),
        "Invalid transfer amount"
    );
    assert_eq!(
        SafeTransferHookError::NotAuthorized.message(),
        "Transfer not authorized"
    );
    assert_eq!(
        SafeTransferHookError::RateLimitExceeded.message(),
        "Rate limit exceeded"
    );
}
