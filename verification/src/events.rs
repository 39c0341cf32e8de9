//! The audit events an operation hands back to its caller. The engine only
//! produces them; appending them to an external log is the surrounding
//! runtime's business, and nothing here ever reads them back.

use vstd::prelude::*;
use crate::state::AccountId;

verus! {

/// A session was opened: who opened it, on which quiz, with which declared
/// answer and stake, and when.
#[derive(Debug)]
pub struct QuizStarted {
    pub user: AccountId,
    pub quiz_id: String,
    pub user_answer: u64,
    pub amount: u64,
    pub timestamp: i64,
}

/// A session was settled: whether the wager won, what was paid, and the
/// reported correctness count.
#[derive(Debug)]
pub struct QuizCompleted {
    pub user: AccountId,
    pub quiz_id: String,
    pub success: bool,
    pub reward: u64,
    pub correct_answers: u8,
    pub bonus_lamports: u64,
}

/// The treasury was repointed to a new vault address. Funds are not moved.
#[derive(Debug)]
pub struct VaultUpdated {
    pub old_vault: AccountId,
    pub new_vault: AccountId,
}

} // verus!
