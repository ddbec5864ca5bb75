use vstd::prelude::*;

verus! {

use crate::constants::COOLDOWN_PERIOD;
use crate::crypto::{find_pda, pda_of, pda_view};
use vstd::slice::slice_to_vec;
use vstd::string::StrSliceExecFns;
use vstd::utf8::encode_utf8;

/// Space needed for a serialized record: discriminator, user,
/// last-placement timestamp, placement count, bump.
pub const USER_COOLDOWN_SIZE: usize = 8 + 32 + 8 + 4 + 1;

/// Per-participant rate-limit record: one exists per user, created on the
/// first placement and mutated on every later one, never deleted.
#[derive(Clone, Debug)]
pub struct UserCooldown {
    /// User wallet address.
    pub user: [u8; 32],
    /// Unix timestamp of the last placement; 0 until the first placement.
    pub last_placement: i64,
    /// Total number of placements by this user.
    pub placement_count: u32,
    /// Key-derivation bump seed.
    pub bump: u8,
}

impl UserCooldown {
    /// Whether fewer than `COOLDOWN_PERIOD` seconds have passed since the
    /// last placement. The caller is responsible for the first-placement
    /// sentinel `last_placement == 0`.
    pub fn is_on_cooldown(&self, current_timestamp: i64) -> (r: bool)
        requires
            self.last_placement >= 0,
            current_timestamp >= 0,
        ensures
            r == (current_timestamp - self.last_placement < COOLDOWN_PERIOD),
    {
        let time_since_last = current_timestamp - self.last_placement;
        time_since_last < COOLDOWN_PERIOD
    }

    /// Seconds left until the cooldown window ends: the maximum of 0 and
    /// `COOLDOWN_PERIOD - (current_timestamp - last_placement)`.
    pub fn remaining_cooldown(&self, current_timestamp: i64) -> (r: i64)
        requires
            self.last_placement >= 0,
            self.last_placement <= i64::MAX - COOLDOWN_PERIOD,
            current_timestamp >= 0,
        ensures
            r == if current_timestamp - self.last_placement < COOLDOWN_PERIOD {
                COOLDOWN_PERIOD - (current_timestamp - self.last_placement)
            } else {
                0
            },
    {
        if self.is_on_cooldown(current_timestamp) {
            COOLDOWN_PERIOD - (current_timestamp - self.last_placement)
        } else {
            0
        }
    }
}

/// Whether an attempt at `current_timestamp` is blocked by the cooldown
/// window: only when a record exists, has seen a placement, and fewer than
/// `COOLDOWN_PERIOD` seconds have passed since it.
pub open spec fn spec_cooldown_blocked(existing: Option<UserCooldown>, current_timestamp: i64) -> bool {
    match existing {
        Some(c) => c.last_placement != 0 && current_timestamp - c.last_placement < COOLDOWN_PERIOD,
        None => false,
    }
}

/// The derived storage key of a user's cooldown record.
pub open spec fn spec_user_cooldown_pda(user: Seq<u8>, program_id: Seq<u8>) -> Option<(Seq<u8>, u8)> {
    pda_of(seq![encode_utf8("cooldown"@), user], program_id)
}

/// Derives the storage key of a user's cooldown record.
pub fn get_user_cooldown_pda(user: &[u8; 32], program_id: &[u8; 32]) -> (r: Option<([u8; 32], u8)>)
    ensures
        pda_view(r) == spec_user_cooldown_pda(user@, program_id@),
{
    let mut seeds: Vec<Vec<u8>> = Vec::new();
    seeds.push("cooldown".as_bytes_vec());
    seeds.push(slice_to_vec(user.as_slice()));
    let r = find_pda(&seeds, program_id);
    proof {
        assert(seeds.deep_view() =~~= seq![encode_utf8("cooldown"@), user@]);
    }
    r
}

} // verus!
