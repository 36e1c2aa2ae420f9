//! Deterministic dice values derived from a time seed and the bettor's
//! identifier bytes. This source is predictable by design; it is kept exact
//! for compatibility, not for its randomness.
use crate::bet::BetType;
use vstd::prelude::*;

verus! {

/// The face of one die drawn from `time_seed` and one identifier byte:
/// `((time_seed ^ byte) % 6) + 1`.
pub open spec fn die_face(time_seed: u64, id_byte: u8) -> int {
    ((time_seed ^ (id_byte as u64)) % 6) as int + 1
}

/// Draws one die from `time_seed` and one byte of the bettor's identifier.
pub fn roll_die(time_seed: u64, id_byte: u8) -> (r: u8)
    ensures
        r as int == die_face(time_seed, id_byte),
        1 <= r <= 6,
{
    let mixed: u64 = time_seed ^ (id_byte as u64);
    ((mixed % 6) + 1) as u8
}

/// Draws two dice: the first from byte 0 of the bettor's identifier, the second
/// from byte 1, both mixed with the same time seed.
pub fn roll_two_dice(time_seed: u64, id: &[u8; 32]) -> (r: (u8, u8))
    ensures
        r.0 as int == die_face(time_seed, id@[0]),
        r.1 as int == die_face(time_seed, id@[1]),
        1 <= r.0 <= 6,
        1 <= r.1 <= 6,
{
    let first = roll_die(time_seed, id[0]);
    let second = roll_die(time_seed, id[1]);
    (first, second)
}

/// Whether a two-dice bet wins on the sum `total` of both dice.
pub open spec fn bet_wins(bet_type: BetType, bet_value: u8, total: int) -> bool {
    match bet_type {
        BetType::SingleNumber => total == bet_value,
        BetType::EvenOdd => (total % 2 == 0 && bet_value == 0) || (total % 2 == 1 && bet_value
            == 1),
        BetType::LowHigh => (total >= 7 && bet_value == 1) || (total < 7 && bet_value == 0),
    }
}

/// Decides a two-dice bet on the sum `total` of both dice.
pub fn is_winning_bet(bet_type: BetType, bet_value: u8, total: u8) -> (r: bool)
    ensures
        r == bet_wins(bet_type, bet_value, total as int),
{
    match bet_type {
        BetType::SingleNumber => total == bet_value,
        BetType::EvenOdd => (total % 2 == 0 && bet_value == 0) || (total % 2 == 1 && bet_value
            == 1),
        BetType::LowHigh => (total >= 7 && bet_value == 1) || (total < 7 && bet_value == 0),
    }
}

} // verus!
