//! Slot derivation for per-owner records.
//!
//! Each owner's session record occupies the slot keyed by the owner's own
//! identity, so the mapping from owner to record is deterministic and
//! collision-free by construction: distinct owners name distinct slots. The
//! engine's session store mirrors this mapping exactly (see
//! `QuizGame::sessions_unique`). Alongside the slot key, the derivation
//! yields a one-byte tag folded from the identity, stored with the record as
//! evidence of the derivation.

use vstd::prelude::*;
use crate::state::AccountId;

verus! {

/// The derivation tag of an identity: the XOR-fold of its bytes.
pub open spec fn bump_of(id: Seq<u8>) -> u8
    decreases id.len(),
{
    if id.len() == 0 {
        0u8
    } else {
        bump_of(id.drop_last()) ^ id.last()
    }
}

/// Computes the derivation tag of an owner identity. Same owner, same tag:
/// the fold is a pure function of the identity bytes.
pub fn derive_bump(owner: &AccountId) -> (b: u8)
    ensures
        b == bump_of(owner@),
{
    let mut acc: u8 = 0;
    let mut i: usize = 0;
    while i < 32
        invariant
            0 <= i <= 32,
            acc == bump_of(owner@.subrange(0, i as int)),
        decreases 32 - i,
    {
        proof {
            let pre = owner@.subrange(0, i as int);
            let post = owner@.subrange(0, i + 1);
            assert(post.drop_last() =~= pre);
            assert(post.last() == owner@[i as int]);
        }
        acc = acc ^ owner.bytes[i];
        i += 1;
    }
    proof {
        assert(owner@.subrange(0, 32) =~= owner@);
    }
    acc
}

} // verus!
