//! The persisted records: account identities, the treasury record, and the
//! per-user session record.

use vstd::prelude::*;
use crate::reward::MINIMUM_STAKE;

verus! {

/// The greatest number of characters a quiz identifier may hold.
pub const MAX_QUIZ_ID_LEN: usize = 50;

/// A 32-byte identity, naming a user, the authority, or an account slot.
#[derive(Debug)]
pub struct AccountId {
    pub bytes: [u8; 32],
}

impl View for AccountId {
    type V = Seq<u8>;

    open spec fn view(&self) -> Seq<u8> {
        self.bytes@
    }
}

impl AccountId {
    /// The identity's first byte, the low-entropy part fed to the bonus seed.
    pub fn low_byte(&self) -> (b: u8)
        ensures
            b == self@[0],
    {
        self.bytes[0]
    }

    /// Byte-for-byte equality of two identities.
    pub fn equals(&self, other: &AccountId) -> (r: bool)
        ensures
            r == (self@ == other@),
    {
        let mut i: usize = 0;
        while i < 32
            invariant
                0 <= i <= 32,
                forall|j: int| 0 <= j < i ==> self.bytes@[j] == other.bytes@[j],
            decreases 32 - i,
        {
            if self.bytes[i] != other.bytes[i] {
                assert(self@ != other@);
                return false;
            }
            i += 1;
        }
        proof {
            assert(self@ =~= other@);
        }
        true
    }

    /// A copy of this identity.
    pub fn dup(&self) -> (r: AccountId)
        ensures
            r@ == self@,
            r == *self,
    {
        AccountId { bytes: self.bytes }
    }
}

/// The singleton treasury record: who administers the vault, where the vault
/// lives, and the cumulative settlement statistics.
pub struct GameState {
    /// Administrator identity; set once at initialization, never changed.
    pub authority: AccountId,
    /// Address of the current custodial vault account.
    pub vault: AccountId,
    /// Number of sessions ever settled; never decreases.
    pub total_games: u64,
    /// Sum of all rewards ever paid out; never decreases.
    pub total_rewards: u64,
}

/// One user's single in-flight (or last settled) wager.
pub struct QuizSession {
    /// True between open and settle.
    pub active: bool,
    /// Caller-supplied answer value, opaque to the engine.
    pub user_answer: u64,
    /// Stake deposited when the session was opened.
    pub amount_paid: u64,
    /// Timestamp at open.
    pub timestamp: i64,
    /// Quiz identifier: non-empty, at most `MAX_QUIZ_ID_LEN` characters.
    pub quiz_id: String,
    /// Identity of the user who opened the session.
    pub user: AccountId,
    /// Derivation tag of the session's slot.
    pub bump: u8,
}

impl QuizSession {
    /// What every session record stored by the engine satisfies: an active
    /// session was opened with a valid stake, a valid quiz identifier, and a
    /// non-negative timestamp.
    pub open spec fn wf(&self) -> bool {
        self.active ==> {
            &&& self.amount_paid >= MINIMUM_STAKE
            &&& 0 < self.quiz_id@.len() <= MAX_QUIZ_ID_LEN
            &&& 0 <= self.timestamp
        }
    }
}

} // verus!
