//! Bet kinds, the error kinds of a settlement, and the checks that gate a bet
//! before any funds move.
use vstd::prelude::*;

verus! {

/// The three kinds of two-dice bets.
#[derive(Clone, Copy, Debug, PartialEq, Eq, Structural)]
pub enum BetType {
    /// Wins when the sum of both dice equals the bet value (2 to 12).
    SingleNumber,
    /// Wins on an even sum with value 0, on an odd sum with value 1.
    EvenOdd,
    /// Wins on a sum of 7 or more with value 1, on a sum below 7 with value 0.
    LowHigh,
}

/// Every way a call into the engine can fail.
#[derive(Clone, Copy, Debug, PartialEq, Eq, Structural)]
pub enum ErrorCode {
    /// The wager is below the minimum of one tenth of a whole coin.
    BetTooSmall,
    /// The single-die guess is outside 1 to 6.
    InvalidNumber,
    /// The bet value is out of range for its bet type.
    InvalidBetValue,
    /// A checked addition, multiplication or subtraction would overflow.
    ArithmeticOverflow,
    /// The player cannot cover the wager, or the vault cannot cover a payout.
    InsufficientFunds,
    /// The game state already exists.
    AlreadyInitialized,
    /// The house edge is above 100 percent.
    InvalidHouseEdge,
}

/// Number of base units in one whole coin.
pub open spec fn units_per_coin() -> int {
    1_000_000_000
}

/// The smallest accepted wager: one tenth of a whole coin.
pub open spec fn min_bet() -> int {
    units_per_coin() / 10
}

/// Whether `bet_value` is in range for `bet_type`.
pub open spec fn bet_value_in_range(bet_type: BetType, bet_value: u8) -> bool {
    match bet_type {
        BetType::SingleNumber => 2 <= bet_value <= 12,
        BetType::EvenOdd => bet_value <= 1,
        BetType::LowHigh => bet_value <= 1,
    }
}

/// The verdict on a two-dice bet: the amount is checked first, then the value.
pub open spec fn bet_verdict(bet_amount: u64, bet_type: BetType, bet_value: u8) -> Result<
    (),
    ErrorCode,
> {
    if bet_amount < min_bet() {
        Err(ErrorCode::BetTooSmall)
    } else if !bet_value_in_range(bet_type, bet_value) {
        Err(ErrorCode::InvalidBetValue)
    } else {
        Ok(())
    }
}

/// The verdict on a single-die guess: the amount is checked first, then the
/// guess.
pub open spec fn guess_verdict(bet_amount: u64, selected_number: u8) -> Result<(), ErrorCode> {
    if bet_amount < min_bet() {
        Err(ErrorCode::BetTooSmall)
    } else if !(1 <= selected_number <= 6) {
        Err(ErrorCode::InvalidNumber)
    } else {
        Ok(())
    }
}

/// Relies on solana_program::native_token::LAMPORTS_PER_SOL, the number of
/// base units in one whole coin.
#[verifier::external_body]
fn lamports_per_sol() -> (r: u64)
    ensures
        r == units_per_coin(),
{
    anchor_lang::solana_program::native_token::LAMPORTS_PER_SOL
}

/// The smallest accepted wager, in base units.
pub fn minimum_bet() -> (r: u64)
    ensures
        r == min_bet(),
{
    lamports_per_sol() / 10
}

/// Checks a two-dice bet before any funds move.
pub fn validate_bet(bet_amount: u64, bet_type: BetType, bet_value: u8) -> (r: Result<
    (),
    ErrorCode,
>)
    ensures
        r == bet_verdict(bet_amount, bet_type, bet_value),
{
    if bet_amount < minimum_bet() {
        return Err(ErrorCode::BetTooSmall);
    }
    let in_range = match bet_type {
        BetType::SingleNumber => 2 <= bet_value && bet_value <= 12,
        BetType::EvenOdd => bet_value <= 1,
        BetType::LowHigh => bet_value <= 1,
    };
    if !in_range {
        return Err(ErrorCode::InvalidBetValue);
    }
    Ok(())
}

/// Checks a single-die guess before any funds move.
pub fn validate_guess(bet_amount: u64, selected_number: u8) -> (r: Result<(), ErrorCode>)
    ensures
        r == guess_verdict(bet_amount, selected_number),
{
    if bet_amount < minimum_bet() {
        return Err(ErrorCode::BetTooSmall);
    }
    if selected_number < 1 || selected_number > 6 {
        return Err(ErrorCode::InvalidNumber);
    }
    Ok(())
}

} // verus!
