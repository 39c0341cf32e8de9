//! The error kinds an operation can fail with. Every failure is fatal to the
//! enclosing operation: no partial effect survives.

use vstd::prelude::*;

verus! {

/// Why an operation was rejected. Each operation's contract states exactly
/// which of these it returns on which inputs.
#[derive(Clone, Copy, Debug, PartialEq, Eq, Structural)]
pub enum QuizError {
    /// The amount must be greater than zero.
    InvalidAmount,
    /// The quiz identifier cannot be empty.
    EmptyQuizId,
    /// The user already has an active quiz session.
    ActiveQuizExists,
    /// No active quiz session was found for the user.
    NoActiveQuiz,
    /// The caller does not own the record it tried to act on.
    UnauthorizedUser,
    /// The vault does not hold the amount asked to be withdrawn.
    InsufficientFunds,
    /// The vault cannot cover the computed reward.
    InsufficientVaultFunds,
    /// The session's expiry window has passed.
    QuizExpired,
    /// The stake is below the fixed minimum.
    MinimumAmountRequired,
}

impl QuizError {
    /// A human-readable account of the error.
    pub fn message(&self) -> (m: &'static str) {
        match self {
            QuizError::InvalidAmount => "Amount must be greater than 0",
            QuizError::EmptyQuizId => "Quiz ID cannot be empty",
            QuizError::ActiveQuizExists => "User already has an active quiz",
            QuizError::NoActiveQuiz => "No active quiz session found",
            QuizError::UnauthorizedUser => "Unauthorized user",
            QuizError::InsufficientFunds => "Insufficient funds in vault",
            QuizError::InsufficientVaultFunds => "Insufficient funds in vault for rewards",
            QuizError::QuizExpired => "Quiz session has expired (1 hour limit)",
            QuizError::MinimumAmountRequired => "Stake is below the minimum amount",
        }
    }
}

} // verus!
