//! Payout arithmetic: gross win from the bet kind's multiplier, the house's
//! truncated share in a widened domain, and the net amount paid back.
use crate::bet::{BetType, ErrorCode};
use vstd::prelude::*;

verus! {

/// The product taken before any division: ten times the wager on a single
/// number, twice it on even/odd, three times it on low/high.
pub open spec fn raw_win(bet_amount: u64, bet_type: BetType) -> int {
    match bet_type {
        BetType::SingleNumber => bet_amount * 10,
        BetType::EvenOdd => bet_amount * 2,
        BetType::LowHigh => bet_amount * 3,
    }
}

/// The gross win: the raw product, halved on low/high (a multiplier of 1.5).
pub open spec fn gross_of(bet_amount: u64, bet_type: BetType) -> int {
    match bet_type {
        BetType::LowHigh => raw_win(bet_amount, bet_type) / 2,
        _ => raw_win(bet_amount, bet_type),
    }
}

/// The house's share of a gross win, truncated: `gross * house_edge / 100`.
pub open spec fn edge_of(gross: int, house_edge: u8) -> int {
    gross * house_edge / 100
}

/// The net payout of a gross win, or the overflow that aborts it.
pub open spec fn net_verdict(gross: int, house_edge: u8) -> Result<u64, ErrorCode> {
    if edge_of(gross, house_edge) > gross {
        Err(ErrorCode::ArithmeticOverflow)
    } else {
        Ok((gross - edge_of(gross, house_edge)) as u64)
    }
}

/// The payout of a winning two-dice bet, or the overflow that aborts it.
pub open spec fn payout_verdict(bet_amount: u64, bet_type: BetType, house_edge: u8) -> Result<
    u64,
    ErrorCode,
> {
    if raw_win(bet_amount, bet_type) > u64::MAX {
        Err(ErrorCode::ArithmeticOverflow)
    } else {
        net_verdict(gross_of(bet_amount, bet_type), house_edge)
    }
}

/// The payout of a winning single-die guess: twice the wager less the house's
/// share, or the overflow that aborts it.
pub open spec fn guess_payout_verdict(bet_amount: u64, house_edge: u8) -> Result<u64, ErrorCode> {
    if bet_amount * 2 > u64::MAX {
        Err(ErrorCode::ArithmeticOverflow)
    } else {
        net_verdict(bet_amount * 2, house_edge)
    }
}

/// Computes the gross win of a two-dice bet with checked arithmetic.
pub fn gross_win(bet_amount: u64, bet_type: BetType) -> (r: Result<u64, ErrorCode>)
    ensures
        raw_win(bet_amount, bet_type) > u64::MAX ==> r == Err::<u64, ErrorCode>(
            ErrorCode::ArithmeticOverflow,
        ),
        raw_win(bet_amount, bet_type) <= u64::MAX ==> r == Ok::<u64, ErrorCode>(
            gross_of(bet_amount, bet_type) as u64,
        ),
{
    match bet_type {
        BetType::SingleNumber => match bet_amount.checked_mul(10) {
            Some(g) => Ok(g),
            None => Err(ErrorCode::ArithmeticOverflow),
        },
        BetType::EvenOdd => match bet_amount.checked_mul(2) {
            Some(g) => Ok(g),
            None => Err(ErrorCode::ArithmeticOverflow),
        },
        BetType::LowHigh => match bet_amount.checked_mul(3) {
            Some(g) => Ok(g / 2),
            None => Err(ErrorCode::ArithmeticOverflow),
        },
    }
}

/// The house's share of `gross`, computed in 128 bits so that the product
/// cannot overflow.
pub fn house_edge_amount(gross: u64, house_edge: u8) -> (r: u128)
    ensures
        r == edge_of(gross as int, house_edge),
{
    proof {
        assert((gross as int) * (house_edge as int) <= 0xffff_ffff_ffff_ffff * 255)
            by (nonlinear_arith)
            requires
                gross <= 0xffff_ffff_ffff_ffffu64,
                house_edge <= 255u8,
        ;
    }
    (gross as u128) * (house_edge as u128) / 100
}

/// The net payout of `gross` after the house's share.
pub fn net_payout(gross: u64, house_edge: u8) -> (r: Result<u64, ErrorCode>)
    ensures
        r == net_verdict(gross as int, house_edge),
{
    let edge = house_edge_amount(gross, house_edge);
    if edge > gross as u128 {
        Err(ErrorCode::ArithmeticOverflow)
    } else {
        Ok(gross - edge as u64)
    }
}

/// The payout of a winning two-dice bet.
pub fn compute_payout(bet_amount: u64, bet_type: BetType, house_edge: u8) -> (r: Result<
    u64,
    ErrorCode,
>)
    ensures
        r == payout_verdict(bet_amount, bet_type, house_edge),
{
    let gross = gross_win(bet_amount, bet_type)?;
    net_payout(gross, house_edge)
}

/// The payout of a winning single-die guess.
pub fn compute_guess_payout(bet_amount: u64, house_edge: u8) -> (r: Result<u64, ErrorCode>)
    ensures
        r == guess_payout_verdict(bet_amount, house_edge),
{
    match bet_amount.checked_mul(2) {
        Some(gross) => net_payout(gross, house_edge),
        None => Err(ErrorCode::ArithmeticOverflow),
    }
}

} // verus!
