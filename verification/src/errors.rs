//! The ways in which an operation can be rejected.

use vstd::prelude::*;

verus! {

/// Why an operation was rejected. A rejected operation changes no record.
#[derive(Clone, Copy, Debug, PartialEq, Eq, Structural)]
pub enum CustomError {
    /// The position is already locked for staking.
    OptionAlreadyLocked,
    /// The lock period has not yet run out.
    LockPeriodNotOver,
    /// The account holds no reward to claim.
    NoRewardsToClaim,
    /// The option type is neither call (0) nor put (1).
    InvalidOptionType,
    /// The position record handed in is not the one that was named.
    InvalidOptionAccount,
    /// The parallel inputs differ in length.
    InvalidInput,
    /// A counter would have left the range of its type.
    ArithmeticError,
    /// The caller is not the pool's admin.
    Unauthorized,
}

impl CustomError {
    /// The text of the message that goes with the error.
    pub open spec fn message_text(self) -> Seq<char> {
        match self {
            CustomError::OptionAlreadyLocked => "Option is already locked."@,
            CustomError::LockPeriodNotOver => "Lock period has not expired."@,
            CustomError::NoRewardsToClaim => "No rewards to claim."@,
            CustomError::InvalidOptionType => "Invalid option type."@,
            CustomError::InvalidOptionAccount => "Invalid option account provided."@,
            CustomError::InvalidInput => "Input length mismatch."@,
            CustomError::ArithmeticError => "Arithmetic operation overflow or underflow."@,
            CustomError::Unauthorized => "Unauthorized."@,
        }
    }

    /// The message that goes with the error.
    pub fn message(&self) -> (text: &'static str)
        ensures
            text@ == self.message_text(),
    {
        match self {
            CustomError::OptionAlreadyLocked => "Option is already locked.",
            CustomError::LockPeriodNotOver => "Lock period has not expired.",
            CustomError::NoRewardsToClaim => "No rewards to claim.",
            CustomError::InvalidOptionType => "Invalid option type.",
            CustomError::InvalidOptionAccount => "Invalid option account provided.",
            CustomError::InvalidInput => "Input length mismatch.",
            CustomError::ArithmeticError => "Arithmetic operation overflow or underflow.",
            CustomError::Unauthorized => "Unauthorized.",
        }
    }
}

} // verus!
