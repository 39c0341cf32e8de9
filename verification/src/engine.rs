//! The settlement engine: the treasury record, the custodial vault balance,
//! and the per-owner session store, together with the operations that move
//! funds between them.
//!
//! Each operation is one atomic unit: every precondition is checked before
//! any record or balance is touched, so a failed operation leaves the whole
//! engine exactly as it found it. Balances the engine does not own (the
//! caller's, the authority's) are passed in as mutable values; the
//! surrounding runtime owns that ledger and guarantees the engine exclusive
//! access for the duration of the call.

use vstd::prelude::*;
use crate::state::{AccountId, GameState, QuizSession, MAX_QUIZ_ID_LEN};
use crate::error::QuizError;
use crate::reward::{
    MINIMUM_STAKE, EXPIRY_WINDOW, total_reward_spec, bonus_spec, calculate_bonus,
    lemma_bonus_bounded,
};
use crate::address::{bump_of, derive_bump};
use crate::events::{QuizStarted, QuizCompleted, VaultUpdated};

verus! {

/// What the session record written by a successful `start_quiz` holds: the
/// wager is active, and every field records exactly what the caller supplied
/// (with the derivation tag of the owner's slot).
pub open spec fn opened_session(
    user: Seq<u8>,
    quiz_id: Seq<char>,
    user_answer: u64,
    amount: u64,
    now: i64,
    s: QuizSession,
) -> bool {
    &&& s.active == true
    &&& s.user_answer == user_answer
    &&& s.amount_paid == amount
    &&& s.timestamp == now
    &&& s.quiz_id@ == quiz_id
    &&& s.user@ == user
    &&& s.bump == bump_of(user)
}

/// The whole settlement state: the singleton treasury, the vault's balance,
/// and one session record per owner that ever opened a session.
pub struct QuizGame {
    /// The treasury record.
    pub game_state: GameState,
    /// Balance of the custodial vault the treasury points at.
    pub vault_balance: u64,
    /// The session store: at most one record per owner, found by the owner's
    /// identity (the derived slot key).
    pub sessions: Vec<QuizSession>,
}

impl QuizGame {
    /// The store mirrors the collision-free slot derivation: no two records
    /// belong to the same owner.
    pub open spec fn sessions_unique(&self) -> bool {
        forall|i: int, j: int|
            0 <= i < j < self.sessions@.len() ==> self.sessions@[i].user@ != self.sessions@[j].user@
    }

    /// Engine well-formedness: the store is collision-free and every stored
    /// session satisfies its own record invariant.
    pub open spec fn wf(&self) -> bool {
        &&& self.sessions_unique()
        &&& forall|i: int| 0 <= i < self.sessions@.len() ==> (#[trigger] self.sessions@[i]).wf()
    }

    /// Whether the store holds a record for this owner.
    pub open spec fn has_session(&self, user: Seq<u8>) -> bool {
        exists|i: int| 0 <= i < self.sessions@.len() && (#[trigger] self.sessions@[i]).user@ == user
    }

    /// The index of this owner's record. Meaningful only when `has_session`
    /// holds; then uniqueness makes it the one index with this owner.
    pub open spec fn session_index(&self, user: Seq<u8>) -> int {
        choose|i: int| 0 <= i < self.sessions@.len() && (#[trigger] self.sessions@[i]).user@ == user
    }

    /// This owner's record. Meaningful only when `has_session` holds.
    pub open spec fn session_for(&self, user: Seq<u8>) -> QuizSession {
        self.sessions@[self.session_index(user)]
    }

    /// Whether this owner currently has an open wager.
    pub open spec fn has_active_session(&self, user: Seq<u8>) -> bool {
        self.has_session(user) && self.session_for(user).active
    }

    /// At most one session record exists per owner: two indices holding the
    /// same owner are the same index. With `has_active_session` this is the
    /// store-level guarantee that at most one active session per owner can
    /// exist at any time.
    pub proof fn lemma_at_most_one_session(&self, i: int, j: int)
        requires
            self.sessions_unique(),
            0 <= i < self.sessions@.len(),
            0 <= j < self.sessions@.len(),
            self.sessions@[i].user@ == self.sessions@[j].user@,
        ensures
            i == j,
    {
        if i < j {
            assert(self.sessions@[i].user@ != self.sessions@[j].user@);
        } else if j < i {
            assert(self.sessions@[j].user@ != self.sessions@[i].user@);
        }
    }

    /// Finds the index of this owner's session record, if any.
    fn find_session(&self, user: &AccountId) -> (r: Option<usize>)
        ensures
            match r {
                Some(i) => i < self.sessions@.len() && self.sessions@[i as int].user@ == user@
                    && self.has_session(user@),
                None => !self.has_session(user@),
            },
    {
        let n = self.sessions.len();
        let mut i: usize = 0;
        while i < n
            invariant
                n == self.sessions@.len(),
                0 <= i <= n,
                forall|j: int| 0 <= j < i ==> (#[trigger] self.sessions@[j]).user@ != user@,
            decreases n - i,
        {
            if self.sessions[i].user.equals(user) {
                return Some(i);
            }
            i += 1;
        }
        None
    }

    /// Creates the singleton treasury: records the authority and the vault
    /// address, and starts both cumulative counters at zero. The vault's
    /// balance starts at zero; funds enter through `fund_vault` and session
    /// stakes. Guarding against a second creation of the singleton is the
    /// storage layer's business, not stated here.
    pub fn initialize(authority: AccountId, vault: AccountId) -> (g: QuizGame)
        ensures
            g.wf(),
            g.game_state.authority@ == authority@,
            g.game_state.vault@ == vault@,
            g.game_state.total_games == 0,
            g.game_state.total_rewards == 0,
            g.vault_balance == 0,
            g.sessions@.len() == 0,
    {
        QuizGame {
            game_state: GameState { authority, vault, total_games: 0, total_rewards: 0 },
            vault_balance: 0,
            sessions: Vec::new(),
        }
    }

    /// The first rejection `start_quiz` runs into on these inputs, if any:
    /// a zero amount, an empty quiz identifier, a stake below the minimum,
    /// or an already-active session of the same owner — in that order.
    pub open spec fn open_check(&self, user: Seq<u8>, quiz_id: Seq<char>, amount: u64) -> Option<
        QuizError,
    > {
        if amount == 0 {
            Some(QuizError::InvalidAmount)
        } else if quiz_id.len() == 0 {
            Some(QuizError::EmptyQuizId)
        } else if amount < MINIMUM_STAKE {
            Some(QuizError::MinimumAmountRequired)
        } else if self.has_active_session(user) {
            Some(QuizError::ActiveQuizExists)
        } else {
            None
        }
    }

    /// Opens a session: moves `amount` from the caller's balance into the
    /// vault and writes the caller's session record (a fresh one, or the
    /// caller's settled one reused). On any rejection nothing changes, and
    /// the error returned is exactly what `open_check` names. On success the
    /// returned event carries what was recorded.
    pub fn start_quiz(
        &mut self,
        user: &AccountId,
        user_balance: &mut u64,
        quiz_id: String,
        user_answer: u64,
        amount: u64,
        now: i64,
    ) -> (r: Result<QuizStarted, QuizError>)
        requires
            old(self).wf(),
            0 <= now,
            quiz_id@.len() <= MAX_QUIZ_ID_LEN,
            // the surrounding ledger can fund the deposit and absorb it:
            old(self).open_check(user@, quiz_id@, amount) is None ==> {
                &&& amount <= *old(user_balance)
                &&& old(self).vault_balance + amount <= u64::MAX
            },
        ensures
            final(self).wf(),
            match r {
                Err(e) => {
                    &&& old(self).open_check(user@, quiz_id@, amount) == Some(e)
                    &&& *final(self) == *old(self)
                    &&& *final(user_balance) == *old(user_balance)
                },
                Ok(ev) => {
                    &&& old(self).open_check(user@, quiz_id@, amount) is None
                    &&& *final(user_balance) == *old(user_balance) - amount
                    &&& final(self).vault_balance == old(self).vault_balance + amount
                    &&& final(self).game_state == old(self).game_state
                    &&& final(self).has_active_session(user@)
                    &&& opened_session(
                        user@,
                        quiz_id@,
                        user_answer,
                        amount,
                        now,
                        final(self).session_for(user@),
                    )
                    &&& final(self).sessions@.len() == old(self).sessions@.len() + (
                    if old(self).has_session(user@) {
                        0int
                    } else {
                        1int
                    })
                    &&& forall|i: int|
                        0 <= i < old(self).sessions@.len() && (#[trigger] old(
                            self,
                        ).sessions@[i]).user@ != user@ ==> final(self).sessions@[i] == old(
                            self,
                        ).sessions@[i]
                    &&& ev.user@ == user@
                    &&& ev.quiz_id@ == quiz_id@
                    &&& ev.user_answer == user_answer
                    &&& ev.amount == amount
                    &&& ev.timestamp == now
                },
            },
    {
        if amount == 0 {
            return Err(QuizError::InvalidAmount);
        }
        if quiz_id.as_str().is_empty() {
            return Err(QuizError::EmptyQuizId);
        }
        if amount < MINIMUM_STAKE {
            return Err(QuizError::MinimumAmountRequired);
        }
        let idx_opt = self.find_session(user);
        if let Some(i) = idx_opt {
            if self.sessions[i].active {
                proof {
                    let j = self.session_index(user@);
                    self.lemma_at_most_one_session(i as int, j);
                }
                return Err(QuizError::ActiveQuizExists);
            }
        }
        proof {
            if self.has_active_session(user@) {
                let j = self.session_index(user@);
                if let Some(i) = idx_opt {
                    self.lemma_at_most_one_session(i as int, j);
                }
            }
        }
        let event = QuizStarted {
            user: user.dup(),
            quiz_id: quiz_id.clone(),
            user_answer,
            amount,
            timestamp: now,
        };
        let bump = derive_bump(user);
        let session = QuizSession {
            active: true,
            user_answer,
            amount_paid: amount,
            timestamp: now,
            quiz_id,
            user: user.dup(),
            bump,
        };
        *user_balance = *user_balance - amount;
        self.vault_balance = self.vault_balance + amount;
        match idx_opt {
            Some(i) => {
                let ghost old_sessions = self.sessions@;
                let slot = &mut self.sessions[i];
                *slot = session;
                proof {
                    assert(self.sessions@ =~= old_sessions.update(i as int, session));
                    assert forall|k: int| 0 <= k < self.sessions@.len() implies (
                    #[trigger] self.sessions@[k]).user@ == old_sessions[k].user@ by {}
                    assert(self.wf());
                    let j = self.session_index(user@);
                    self.lemma_at_most_one_session(i as int, j);
                }
            },
            None => {
                let ghost old_sessions = self.sessions@;
                self.sessions.push(session);
                proof {
                    let n = old_sessions.len() as int;
                    assert forall|k: int, l: int| 0 <= k < l < self.sessions@.len() implies self
                        .sessions@[k].user@ != self.sessions@[l].user@ by {
                        if l < n {
                            assert(old_sessions[k].user@ != old_sessions[l].user@);
                        } else {
                            assert(old_sessions[k].user@ != user@);
                        }
                    }
                    assert(self.wf());
                    assert(self.sessions@[n].user@ == user@);
                    let j = self.session_index(user@);
                    self.lemma_at_most_one_session(n, j);
                }
            },
        }
        Ok(event)
    }

    /// The first rejection `complete_quiz` runs into on these inputs, if
    /// any: no active session of this owner, an expired session, or a vault
    /// that cannot cover the computed reward — in that order.
    pub open spec fn settle_check(&self, user: Seq<u8>, correct: u8, now: i64) -> Option<
        QuizError,
    > {
        if !self.has_active_session(user) {
            Some(QuizError::NoActiveQuiz)
        } else if now - self.session_for(user).timestamp > EXPIRY_WINDOW {
            Some(QuizError::QuizExpired)
        } else if total_reward_spec(correct, self.session_for(user).amount_paid, now, user[0])
            > self.vault_balance {
            Some(QuizError::InsufficientVaultFunds)
        } else {
            None
        }
    }

    /// Settles the caller's active session: marks it inactive, pays the
    /// total reward (stake plus bonus, or nothing below two correct answers)
    /// from the vault to the caller, and bumps the treasury counters. On any
    /// rejection nothing changes — in particular an expired or underfunded
    /// settlement leaves the session active and the vault untouched — and
    /// the error returned is exactly what `settle_check` names. Ownership of
    /// the session is enforced by the lookup itself: only the record in the
    /// caller's own derived slot is ever read or written.
    pub fn complete_quiz(
        &mut self,
        user: &AccountId,
        user_balance: &mut u64,
        correct_answer_count: u8,
        now: i64,
    ) -> (r: Result<QuizCompleted, QuizError>)
        requires
            old(self).wf(),
            0 <= now,
            // the surrounding ledger can absorb the payout and the counters
            // have room for one more settlement:
            old(self).settle_check(user@, correct_answer_count, now) is None ==> {
                let reward = total_reward_spec(
                    correct_answer_count,
                    old(self).session_for(user@).amount_paid,
                    now,
                    user@[0],
                );
                &&& *old(user_balance) + reward <= u64::MAX
                &&& old(self).game_state.total_games < u64::MAX
                &&& old(self).game_state.total_rewards + reward <= u64::MAX
            },
        ensures
            final(self).wf(),
            match r {
                Err(e) => {
                    &&& old(self).settle_check(user@, correct_answer_count, now) == Some(e)
                    &&& *final(self) == *old(self)
                    &&& *final(user_balance) == *old(user_balance)
                },
                Ok(ev) => ({
                    let reward = total_reward_spec(
                        correct_answer_count,
                        old(self).session_for(user@).amount_paid,
                        now,
                        user@[0],
                    );
                    let s_old = old(self).session_for(user@);
                    let s_new = final(self).session_for(user@);
                    &&& old(self).settle_check(user@, correct_answer_count, now) is None
                    &&& final(self).sessions@.len() == old(self).sessions@.len()
                    &&& final(self).has_session(user@)
                    &&& s_new.active == false
                    &&& s_new.user_answer == s_old.user_answer
                    &&& s_new.amount_paid == s_old.amount_paid
                    &&& s_new.timestamp == s_old.timestamp
                    &&& s_new.quiz_id@ == s_old.quiz_id@
                    &&& s_new.user@ == s_old.user@
                    &&& s_new.bump == s_old.bump
                    &&& forall|i: int|
                        0 <= i < old(self).sessions@.len() && (#[trigger] old(
                            self,
                        ).sessions@[i]).user@ != user@ ==> final(self).sessions@[i] == old(
                            self,
                        ).sessions@[i]
                    &&& final(self).vault_balance == old(self).vault_balance - reward
                    &&& *final(user_balance) == *old(user_balance) + reward
                    &&& final(self).game_state.total_games == old(self).game_state.total_games + 1
                    &&& final(self).game_state.total_rewards == old(
                        self,
                    ).game_state.total_rewards + reward
                    &&& final(self).game_state.authority == old(self).game_state.authority
                    &&& final(self).game_state.vault == old(self).game_state.vault
                    &&& ev.user@ == user@
                    &&& ev.quiz_id@ == s_old.quiz_id@
                    &&& ev.success == (correct_answer_count >= 2)
                    &&& ev.reward == reward
                    &&& ev.correct_answers == correct_answer_count
                    &&& ev.bonus_lamports == bonus_spec(
                        correct_answer_count,
                        s_old.amount_paid,
                        now,
                        user@[0],
                    )
                }),
            },
    {
        let idx_opt = self.find_session(user);
        let idx = match idx_opt {
            None => {
                return Err(QuizError::NoActiveQuiz);
            },
            Some(i) => i,
        };
        proof {
            let j = self.session_index(user@);
            self.lemma_at_most_one_session(idx as int, j);
        }
        if !self.sessions[idx].active {
            return Err(QuizError::NoActiveQuiz);
        }
        let opened_at = self.sessions[idx].timestamp;
        if now - opened_at > EXPIRY_WINDOW {
            return Err(QuizError::QuizExpired);
        }
        let initial_amount = self.sessions[idx].amount_paid;
        let user_low = user.low_byte();
        let bonus = calculate_bonus(correct_answer_count, initial_amount, now, user_low);
        let total: u128 = if correct_answer_count >= 2 {
            initial_amount as u128 + bonus as u128
        } else {
            0
        };
        if total > self.vault_balance as u128 {
            return Err(QuizError::InsufficientVaultFunds);
        }
        let total_reward: u64 = total as u64;
        let ghost old_sessions = self.sessions@;
        let slot = &mut self.sessions[idx];
        slot.active = false;
        proof {
            assert forall|k: int| 0 <= k < self.sessions@.len() implies (
            #[trigger] self.sessions@[k]).user@ == old_sessions[k].user@ by {}
            assert(self.wf());
            let j = self.session_index(user@);
            self.lemma_at_most_one_session(idx as int, j);
        }
        self.vault_balance = self.vault_balance - total_reward;
        *user_balance = *user_balance + total_reward;
        self.game_state.total_games = self.game_state.total_games + 1;
        self.game_state.total_rewards = self.game_state.total_rewards + total_reward;
        let event = QuizCompleted {
            user: user.dup(),
            quiz_id: self.sessions[idx].quiz_id.clone(),
            success: correct_answer_count >= 2,
            reward: total_reward,
            correct_answers: correct_answer_count,
            bonus_lamports: bonus,
        };
        Ok(event)
    }

    /// The first rejection `withdraw` runs into on these inputs, if any: a
    /// caller other than the authority, an amount beyond the vault's
    /// balance, or a zero amount — in that order.
    pub open spec fn withdraw_check(&self, caller: Seq<u8>, amount: u64) -> Option<QuizError> {
        if caller != self.game_state.authority@ {
            Some(QuizError::UnauthorizedUser)
        } else if amount > self.vault_balance {
            Some(QuizError::InsufficientFunds)
        } else if amount == 0 {
            Some(QuizError::InvalidAmount)
        } else {
            None
        }
    }

    /// Drains `amount` from the vault into the authority's balance. Only the
    /// authority may call it; a request beyond the vault's balance fails and
    /// leaves every balance unchanged.
    pub fn withdraw(
        &mut self,
        caller: &AccountId,
        authority_balance: &mut u64,
        amount: u64,
    ) -> (r: Result<(), QuizError>)
        requires
            old(self).wf(),
            // the surrounding ledger can absorb the payout:
            old(self).withdraw_check(caller@, amount) is None ==> *old(authority_balance) + amount
                <= u64::MAX,
        ensures
            final(self).wf(),
            match r {
                Err(e) => {
                    &&& old(self).withdraw_check(caller@, amount) == Some(e)
                    &&& *final(self) == *old(self)
                    &&& *final(authority_balance) == *old(authority_balance)
                },
                Ok(_) => {
                    &&& old(self).withdraw_check(caller@, amount) is None
                    &&& final(self).vault_balance == old(self).vault_balance - amount
                    &&& *final(authority_balance) == *old(authority_balance) + amount
                    &&& final(self).game_state == old(self).game_state
                    &&& final(self).sessions@ == old(self).sessions@
                },
            },
    {
        if !caller.equals(&self.game_state.authority) {
            return Err(QuizError::UnauthorizedUser);
        }
        if amount > self.vault_balance {
            return Err(QuizError::InsufficientFunds);
        }
        if amount == 0 {
            return Err(QuizError::InvalidAmount);
        }
        self.vault_balance = self.vault_balance - amount;
        *authority_balance = *authority_balance + amount;
        Ok(())
    }

    /// The rejection `fund_vault` runs into on these inputs, if any: a
    /// caller other than the authority, or a zero amount.
    pub open spec fn fund_check(&self, caller: Seq<u8>, amount: u64) -> Option<QuizError> {
        if caller != self.game_state.authority@ {
            Some(QuizError::UnauthorizedUser)
        } else if amount == 0 {
            Some(QuizError::InvalidAmount)
        } else {
            None
        }
    }

    /// Moves `amount` from the authority's own balance into the vault.
    pub fn fund_vault(
        &mut self,
        caller: &AccountId,
        authority_balance: &mut u64,
        amount: u64,
    ) -> (r: Result<(), QuizError>)
        requires
            old(self).wf(),
            // the surrounding ledger can fund the deposit and the vault can
            // absorb it:
            old(self).fund_check(caller@, amount) is None ==> {
                &&& amount <= *old(authority_balance)
                &&& old(self).vault_balance + amount <= u64::MAX
            },
        ensures
            final(self).wf(),
            match r {
                Err(e) => {
                    &&& old(self).fund_check(caller@, amount) == Some(e)
                    &&& *final(self) == *old(self)
                    &&& *final(authority_balance) == *old(authority_balance)
                },
                Ok(_) => {
                    &&& old(self).fund_check(caller@, amount) is None
                    &&& final(self).vault_balance == old(self).vault_balance + amount
                    &&& *final(authority_balance) == *old(authority_balance) - amount
                    &&& final(self).game_state == old(self).game_state
                    &&& final(self).sessions@ == old(self).sessions@
                },
            },
    {
        if !caller.equals(&self.game_state.authority) {
            return Err(QuizError::UnauthorizedUser);
        }
        if amount == 0 {
            return Err(QuizError::InvalidAmount);
        }
        *authority_balance = *authority_balance - amount;
        self.vault_balance = self.vault_balance + amount;
        Ok(())
    }

    /// Repoints the treasury at a new vault address. Only the authority may
    /// call it; funds are not moved — reconciling balances between the old
    /// and the new vault is the caller's responsibility. The returned event
    /// names both addresses.
    pub fn update_vault(&mut self, caller: &AccountId, new_vault: AccountId) -> (r: Result<
        VaultUpdated,
        QuizError,
    >)
        requires
            old(self).wf(),
        ensures
            final(self).wf(),
            match r {
                Err(e) => {
                    &&& e == QuizError::UnauthorizedUser
                    &&& caller@ != old(self).game_state.authority@
                    &&& *final(self) == *old(self)
                },
                Ok(ev) => {
                    &&& caller@ == old(self).game_state.authority@
                    &&& final(self).game_state.vault == new_vault
                    &&& final(self).game_state.authority == old(self).game_state.authority
                    &&& final(self).game_state.total_games == old(self).game_state.total_games
                    &&& final(self).game_state.total_rewards == old(self).game_state.total_rewards
                    &&& final(self).vault_balance == old(self).vault_balance
                    &&& final(self).sessions@ == old(self).sessions@
                    &&& ev.old_vault@ == old(self).game_state.vault@
                    &&& ev.new_vault@ == new_vault@
                },
            },
    {
        if !caller.equals(&self.game_state.authority) {
            return Err(QuizError::UnauthorizedUser);
        }
        let old_vault = self.game_state.vault.dup();
        self.game_state.vault = new_vault;
        Ok(VaultUpdated { old_vault, new_vault: self.game_state.vault.dup() })
    }
}

/// A stake below the minimum is always rejected as `MinimumAmountRequired`,
/// whatever the engine's state — and `start_quiz` then leaves the engine and
/// the caller's balance unchanged, by its own contract. The two rejections
/// checked earlier are left out here: a zero amount fails as `InvalidAmount`
/// and an empty quiz identifier as `EmptyQuizId`.
pub proof fn lemma_minimum_stake_rejected(
    g: QuizGame,
    user: Seq<u8>,
    quiz_id: Seq<char>,
    amount: u64,
)
    requires
        0 < amount < MINIMUM_STAKE,
        quiz_id.len() > 0,
    ensures
        g.open_check(user, quiz_id, amount) == Some(QuizError::MinimumAmountRequired),
{
}

/// Opening a session while the owner already has an active one is always
/// rejected as `ActiveQuizExists`, whatever the engine's state — and
/// `start_quiz` then changes nothing, by its own contract. Inputs that an
/// earlier check rejects are left out: a zero or below-minimum amount and an
/// empty quiz identifier fail with their own errors first.
pub proof fn lemma_reopen_while_active_rejected(
    g: QuizGame,
    user: Seq<u8>,
    quiz_id: Seq<char>,
    amount: u64,
)
    requires
        g.has_active_session(user),
        amount >= MINIMUM_STAKE,
        quiz_id.len() > 0,
    ensures
        g.open_check(user, quiz_id, amount) == Some(QuizError::ActiveQuizExists),
{
}

/// A session past its expiry window is always rejected as `QuizExpired`,
/// regardless of the correctness count — and `complete_quiz` then leaves the
/// session active and pays nothing, by its own contract.
pub proof fn lemma_expired_session_rejected(g: QuizGame, user: Seq<u8>, correct: u8, now: i64)
    requires
        g.has_active_session(user),
        now - g.session_for(user).timestamp > EXPIRY_WINDOW,
    ensures
        g.settle_check(user, correct, now) == Some(QuizError::QuizExpired),
{
}

/// A settlement that passes every check pays a reward the vault can cover:
/// the vault's balance never goes below zero on a payout, since
/// `complete_quiz` debits exactly this reward.
pub proof fn lemma_settlement_covered(g: QuizGame, user: Seq<u8>, correct: u8, now: i64)
    requires
        g.settle_check(user, correct, now) is None,
    ensures
        0 <= total_reward_spec(correct, g.session_for(user).amount_paid, now, user[0])
            <= g.vault_balance,
{
    lemma_bonus_bounded(correct, g.session_for(user).amount_paid, now, user[0]);
}

/// A withdrawal that passes every check asks no more than the vault holds:
/// the vault's balance never goes below zero on a withdrawal, since
/// `withdraw` debits exactly this amount.
pub proof fn lemma_withdrawal_covered(g: QuizGame, caller: Seq<u8>, amount: u64)
    requires
        g.withdraw_check(caller, amount) is None,
    ensures
        amount <= g.vault_balance,
{
}

} // verus!
