//! Properties that hold across settlements, proved over the settlement
//! specifications that `roll_dice` and `roll_single_die` are held to.
use crate::bet::{BetType, ErrorCode};
use crate::ledger::{fresh_state, roll_verdict, settlement, single_roll_verdict, RollDice};
use vstd::prelude::*;

verus! {

/// A settled bet counts exactly one more bet, and one more win exactly when
/// it won, whatever the dice showed.
pub proof fn lemma_settlement_counts(
    before: RollDice,
    bet_amount: u64,
    won: bool,
    payout: Result<u64, ErrorCode>,
)
    ensures
        settlement(before, bet_amount, won, payout) matches Ok(after) ==> after.game_state.total_bets
            == before.game_state.total_bets + 1 && after.game_state.total_wins
            == before.game_state.total_wins + (if won {
            1int
        } else {
            0int
        }),
{
}

/// A successful two-dice roll counts exactly one more bet, win or lose.
pub proof fn lemma_roll_counts_one_bet(
    before: RollDice,
    bet_amount: u64,
    bet_type: BetType,
    bet_value: u8,
    time_seed: u64,
)
    ensures
        roll_verdict(before, bet_amount, bet_type, bet_value, time_seed) matches Ok((after, out))
            ==> after.game_state.total_bets == before.game_state.total_bets + 1
            && after.game_state.total_wins == before.game_state.total_wins + (if out.won {
            1int
        } else {
            0int
        }),
{
}

/// A successful single-die roll counts exactly one more bet, win or lose.
pub proof fn lemma_single_roll_counts_one_bet(
    before: RollDice,
    bet_amount: u64,
    selected_number: u8,
    time_seed: u64,
)
    ensures
        single_roll_verdict(before, bet_amount, selected_number, time_seed) matches Ok(
            (after, out),
        ) ==> after.game_state.total_bets == before.game_state.total_bets + 1
            && after.game_state.total_wins == before.game_state.total_wins + (if out.won {
            1int
        } else {
            0int
        }),
{
}

/// A freshly created game has no more wins than bets.
pub proof fn lemma_fresh_state_wf(authority: [u8; 32], house_edge: u8)
    ensures
        fresh_state(authority, house_edge).wf(),
{
}

/// No roll of either kind can make wins outnumber bets: a successful roll
/// keeps the invariant, and a failed one changes nothing.
pub proof fn lemma_rolls_keep_wins_within_bets(
    before: RollDice,
    bet_amount: u64,
    bet_type: BetType,
    bet_value: u8,
    selected_number: u8,
    time_seed: u64,
)
    requires
        before.game_state.wf(),
    ensures
        roll_verdict(before, bet_amount, bet_type, bet_value, time_seed) matches Ok((after, _))
            ==> after.game_state.wf(),
        single_roll_verdict(before, bet_amount, selected_number, time_seed) matches Ok(
            (after, _),
        ) ==> after.game_state.wf(),
{
}

/// The dice and the win decision depend only on the time seed, the first two
/// bytes of the bettor's identifier and the bet itself: no balance, counter or
/// other hidden state enters them.
pub proof fn lemma_outcome_deterministic(
    a: RollDice,
    b: RollDice,
    bet_amount: u64,
    bet_type: BetType,
    bet_value: u8,
    selected_number: u8,
    time_seed: u64,
)
    requires
        a.player@[0] == b.player@[0],
        a.player@[1] == b.player@[1],
    ensures
        roll_verdict(a, bet_amount, bet_type, bet_value, time_seed) matches Ok((_, oa))
            ==> roll_verdict(b, bet_amount, bet_type, bet_value, time_seed) matches Ok((_, ob))
            ==> oa.first_die == ob.first_die && oa.second_die == ob.second_die && oa.won
            == ob.won,
        single_roll_verdict(a, bet_amount, selected_number, time_seed) matches Ok((_, oa))
            ==> single_roll_verdict(b, bet_amount, selected_number, time_seed) matches Ok(
            (_, ob),
        ) ==> oa.first_die == ob.first_die && oa.won == ob.won,
{
}

/// The vault never pays out more than it holds once the wager is in: a
/// winning settlement whose payout exceeds the vault fails with
/// `InsufficientFunds` rather than paying part of it, and every successful
/// settlement moves value between player and vault without creating or
/// losing any.
pub proof fn lemma_vault_solvency(
    before: RollDice,
    bet_amount: u64,
    won: bool,
    payout: Result<u64, ErrorCode>,
)
    ensures
        (payout matches Ok(p) && won && before.player_balance >= bet_amount
            && before.vault_balance + bet_amount <= u64::MAX && before.game_state.total_bets
            < u64::MAX && before.vault_balance + bet_amount < p) ==> settlement(
            before,
            bet_amount,
            won,
            payout,
        ) == Err::<RollDice, ErrorCode>(ErrorCode::InsufficientFunds),
        settlement(before, bet_amount, won, payout) matches Ok(after) ==> after.vault_balance
            + after.player_balance == before.vault_balance + before.player_balance,
        won ==> (settlement(before, bet_amount, won, payout) matches Ok(after) ==> (payout matches Ok(
            p,
        ) && after.vault_balance == before.vault_balance + bet_amount - p)),
{
}

} // verus!
