//! The rule of a transfer hook that is safe to whitelist: it lets every transfer of a
//! positive amount pass.
use vstd::prelude::*;

verus! {

/// Why the hook refuses a transfer.
#[derive(Clone, Copy, Debug, PartialEq, Eq, Structural)]
pub enum SafeTransferHookError {
    /// The amount is zero.
    InvalidAmount,
    /// The transfer is not authorized. This hook never reports it.
    NotAuthorized,
    /// Too many transfers in too short a time. This hook never reports it.
    RateLimitExceeded,
}

impl SafeTransferHookError {
    /// The text of the message that goes with the refusal.
    pub open spec fn message_text(self) -> Seq<char> {
        match self {
            SafeTransferHookError::InvalidAmount => "Invalid transfer amount"@,
            SafeTransferHookError::NotAuthorized => "Transfer not authorized"@,
            SafeTransferHookError::RateLimitExceeded => "Rate limit exceeded"@,
        }
    }

    /// The message that goes with the refusal.
    pub fn message(&self) -> (text: &'static str)
        ensures
            text@ == self.message_text(),
    {
        match self {
            SafeTransferHookError::InvalidAmount => "Invalid transfer amount",
            SafeTransferHookError::NotAuthorized => "Transfer not authorized",
            SafeTransferHookError::RateLimitExceeded => "Rate limit exceeded",
        }
    }
}

/// Decides on a transfer of `amount`: it passes unless the amount is zero.
pub fn execute(amount: u64) -> (result: Result<(), SafeTransferHookError>)
    ensures
        result == if amount > 0 {
            Ok::<(), SafeTransferHookError>(())
        } else {
            Err(SafeTransferHookError::InvalidAmount)
        },
{
    if amount == 0 {
        return Err(SafeTransferHookError::InvalidAmount);
    }
    Ok(())
}

} // verus!
