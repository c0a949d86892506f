use vstd::prelude::*;

verus! {

/// Why an instruction was refused. A refused instruction changes nothing.
#[derive(Clone, Copy, Debug, PartialEq, Eq, Structural)]
pub enum ErrorCode {
    /// The release times and the amounts differ in length.
    InvalidIntervalInput,
    /// No schedule has come due with a balance left to release.
    ZeroUnlockAmount,
    /// A due balance must be unlocked before the record can be closed.
    UnlockAmountFirst,
    /// An account handed in is not the one the record or its seed names, or
    /// the signer does not own it.
    AuthorizationMismatch,
}

impl ErrorCode {
    /// The message shown for this error.
    pub fn message(&self) -> (r: &'static str) {
        match self {
            ErrorCode::InvalidIntervalInput => "Invalid releaseInterval and amountInterval. Must be the same length.",
            ErrorCode::ZeroUnlockAmount => "No outstanding unlockable balance.",
            ErrorCode::UnlockAmountFirst => "There are outstanding unlockable balance. Please unlock balance first",
            ErrorCode::AuthorizationMismatch => "An account does not match the vesting record or its signer.",
        }
    }
}

} // verus!
