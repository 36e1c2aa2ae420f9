//! The shared game state, the vault and player balances, and the settlement
//! that applies every effect of one bet as a single unit or none of them.
use crate::bet::{bet_verdict, guess_verdict, validate_bet, validate_guess, BetType, ErrorCode};
use crate::entropy::{bet_wins, die_face, is_winning_bet, roll_die, roll_two_dice};
use crate::payout::{compute_guess_payout, compute_payout, guess_payout_verdict, payout_verdict};
use vstd::prelude::*;

verus! {

/// The singleton record of game-wide statistics.
#[derive(Clone, Copy, Debug, PartialEq, Eq)]
pub struct GameState {
    /// Identifier of the account that created the game.
    pub authority: [u8; 32],
    /// Percentage of every gross win that the house keeps.
    pub house_edge: u8,
    /// Number of settled bets.
    pub total_bets: u64,
    /// Number of settled bets that paid out.
    pub total_wins: u64,
}

impl GameState {
    /// Size of the stored record, without the storage layer's 8-byte prefix.
    pub const LEN: usize = 32 + 1 + 8 + 8;

    /// The counters' invariant: no more wins than bets.
    pub open spec fn wf(&self) -> bool {
        self.total_wins <= self.total_bets
    }
}

/// What creating the game works on: the slot where the game state lives, and
/// the identifier of the creating account.
#[derive(Clone, Copy, Debug, PartialEq, Eq)]
pub struct Initialize {
    /// The game state, once created.
    pub game_state: Option<GameState>,
    /// Identifier of the creating account.
    pub authority: [u8; 32],
}

/// What one settlement works on: the game state, the vault's balance, the
/// bettor's identifier and the bettor's balance.
#[derive(Clone, Copy, Debug, PartialEq, Eq)]
pub struct RollDice {
    /// The shared game-wide counters.
    pub game_state: GameState,
    /// Balance of the escrow vault, in base units.
    pub vault_balance: u64,
    /// Identifier bytes of the bettor.
    pub player: [u8; 32],
    /// Balance of the bettor, in base units.
    pub player_balance: u64,
}

/// What a successful settlement reports: the dice, whether the bet won, and
/// what was paid back (zero on a loss). A single-die roll reports its die
/// first and 0 second.
#[derive(Clone, Copy, Debug, PartialEq, Eq, Structural)]
pub struct RollOutcome {
    /// The first die, 1 to 6.
    pub first_die: u8,
    /// The second die, 1 to 6, or 0 on a single-die roll.
    pub second_die: u8,
    /// Whether the bet won.
    pub won: bool,
    /// What the vault paid the player.
    pub payout: u64,
}

/// The game state that creation writes.
pub open spec fn fresh_state(authority: [u8; 32], house_edge: u8) -> GameState {
    GameState { authority, house_edge, total_bets: 0, total_wins: 0 }
}

/// Creates the game state with the given house edge and zero counters.
pub fn initialize(ctx: &mut Initialize, house_edge: u8) -> (r: Result<(), ErrorCode>)
    ensures
        old(ctx).game_state is Some ==> r == Err::<(), ErrorCode>(ErrorCode::AlreadyInitialized)
            && *final(ctx) == *old(ctx),
        old(ctx).game_state is None && house_edge > 100 ==> r == Err::<(), ErrorCode>(
            ErrorCode::InvalidHouseEdge,
        ) && *final(ctx) == *old(ctx),
        old(ctx).game_state is None && house_edge <= 100 ==> r == Ok::<(), ErrorCode>(())
            && final(ctx).authority == old(ctx).authority && final(ctx).game_state == Some(
            fresh_state(old(ctx).authority, house_edge),
        ),
{
    if ctx.game_state.is_some() {
        return Err(ErrorCode::AlreadyInitialized);
    }
    if house_edge > 100 {
        return Err(ErrorCode::InvalidHouseEdge);
    }
    ctx.game_state = Some(
        GameState { authority: ctx.authority, house_edge, total_bets: 0, total_wins: 0 },
    );
    Ok(())
}

/// The effects of one validated bet, in the order they are taken: the wager
/// moves from player to vault, the bet is counted, and on a win the payout
/// moves from vault to player and the win is counted. The first step that
/// cannot be taken fails the whole settlement.
pub open spec fn settlement(
    before: RollDice,
    bet_amount: u64,
    won: bool,
    payout: Result<u64, ErrorCode>,
) -> Result<RollDice, ErrorCode> {
    let gs = before.game_state;
    if before.player_balance < bet_amount {
        Err(ErrorCode::InsufficientFunds)
    } else if before.vault_balance + bet_amount > u64::MAX {
        Err(ErrorCode::ArithmeticOverflow)
    } else if gs.total_bets + 1 > u64::MAX {
        Err(ErrorCode::ArithmeticOverflow)
    } else {
        let player = (before.player_balance - bet_amount) as u64;
        let vault = (before.vault_balance + bet_amount) as u64;
        let bets = (gs.total_bets + 1) as u64;
        if !won {
            Ok(
                RollDice {
                    game_state: GameState { total_bets: bets, ..gs },
                    vault_balance: vault,
                    player_balance: player,
                    ..before
                },
            )
        } else {
            match payout {
                Err(e) => Err(e),
                Ok(p) => {
                    if vault < p {
                        Err(ErrorCode::InsufficientFunds)
                    } else if player + p > u64::MAX {
                        Err(ErrorCode::ArithmeticOverflow)
                    } else if gs.total_wins + 1 > u64::MAX {
                        Err(ErrorCode::ArithmeticOverflow)
                    } else {
                        Ok(
                            RollDice {
                                game_state: GameState {
                                    total_bets: bets,
                                    total_wins: (gs.total_wins + 1) as u64,
                                    ..gs
                                },
                                vault_balance: (vault - p) as u64,
                                player_balance: (player + p) as u64,
                                ..before
                            },
                        )
                    }
                },
            }
        }
    }
}

/// Applies one validated bet to the ledger: every effect of `settlement`, or,
/// on failure, none at all.
pub fn settle(ctx: &mut RollDice, bet_amount: u64, won: bool, payout: Result<u64, ErrorCode>) -> (r:
    Result<u64, ErrorCode>)
    ensures
        match settlement(*old(ctx), bet_amount, won, payout) {
            Ok(after) => *final(ctx) == after && r == Ok::<u64, ErrorCode>(
                if won {
                    payout->Ok_0
                } else {
                    0
                },
            ),
            Err(e) => *final(ctx) == *old(ctx) && r == Err::<u64, ErrorCode>(e),
        },
{
    // Every new value is computed before anything is written back.
    if ctx.player_balance < bet_amount {
        return Err(ErrorCode::InsufficientFunds);
    }
    let player = ctx.player_balance - bet_amount;
    let vault = match ctx.vault_balance.checked_add(bet_amount) {
        Some(v) => v,
        None => return Err(ErrorCode::ArithmeticOverflow),
    };
    let bets = match ctx.game_state.total_bets.checked_add(1) {
        Some(b) => b,
        None => return Err(ErrorCode::ArithmeticOverflow),
    };
    if !won {
        ctx.player_balance = player;
        ctx.vault_balance = vault;
        ctx.game_state.total_bets = bets;
        return Ok(0);
    }
    let paid = payout?;
    if vault < paid {
        return Err(ErrorCode::InsufficientFunds);
    }
    let player_after = match player.checked_add(paid) {
        Some(p) => p,
        None => return Err(ErrorCode::ArithmeticOverflow),
    };
    let wins = match ctx.game_state.total_wins.checked_add(1) {
        Some(w) => w,
        None => return Err(ErrorCode::ArithmeticOverflow),
    };
    ctx.player_balance = player_after;
    ctx.vault_balance = vault - paid;
    ctx.game_state.total_bets = bets;
    ctx.game_state.total_wins = wins;
    Ok(paid)
}

/// The outcome of a two-dice settlement on `before`: the validation verdict
/// first, then the dice from `time_seed` and the bettor's identifier, then the
/// settlement with the payout that the house edge leaves.
pub open spec fn roll_verdict(
    before: RollDice,
    bet_amount: u64,
    bet_type: BetType,
    bet_value: u8,
    time_seed: u64,
) -> Result<(RollDice, RollOutcome), ErrorCode> {
    match bet_verdict(bet_amount, bet_type, bet_value) {
        Err(e) => Err(e),
        Ok(_) => {
            let d1 = die_face(time_seed, before.player@[0]);
            let d2 = die_face(time_seed, before.player@[1]);
            let won = bet_wins(bet_type, bet_value, d1 + d2);
            let payout = payout_verdict(bet_amount, bet_type, before.game_state.house_edge);
            match settlement(before, bet_amount, won, payout) {
                Err(e) => Err(e),
                Ok(after) => Ok(
                    (
                        after,
                        RollOutcome {
                            first_die: d1 as u8,
                            second_die: d2 as u8,
                            won,
                            payout: if won {
                                payout->Ok_0
                            } else {
                                0
                            },
                        },
                    ),
                ),
            }
        },
    }
}

/// The outcome of a single-die settlement on `before`: the validation verdict
/// first, then the die from `time_seed` and byte 0 of the bettor's identifier,
/// then the settlement with twice the wager less the house's share.
pub open spec fn single_roll_verdict(
    before: RollDice,
    bet_amount: u64,
    selected_number: u8,
    time_seed: u64,
) -> Result<(RollDice, RollOutcome), ErrorCode> {
    match guess_verdict(bet_amount, selected_number) {
        Err(e) => Err(e),
        Ok(_) => {
            let d = die_face(time_seed, before.player@[0]);
            let won = d == selected_number;
            let payout = guess_payout_verdict(bet_amount, before.game_state.house_edge);
            match settlement(before, bet_amount, won, payout) {
                Err(e) => Err(e),
                Ok(after) => Ok(
                    (
                        after,
                        RollOutcome {
                            first_die: d as u8,
                            second_die: 0,
                            won,
                            payout: if won {
                                payout->Ok_0
                            } else {
                                0
                            },
                        },
                    ),
                ),
            }
        },
    }
}

/// Settles one two-dice bet: validates it, rolls, and applies every effect
/// at once. On any failure the ledger is left exactly as it was.
pub fn roll_dice(
    ctx: &mut RollDice,
    bet_amount: u64,
    bet_type: BetType,
    bet_value: u8,
    time_seed: u64,
) -> (r: Result<RollOutcome, ErrorCode>)
    ensures
        match roll_verdict(*old(ctx), bet_amount, bet_type, bet_value, time_seed) {
            Ok((after, outcome)) => *final(ctx) == after && r == Ok::<RollOutcome, ErrorCode>(
                outcome,
            ),
            Err(e) => *final(ctx) == *old(ctx) && r == Err::<RollOutcome, ErrorCode>(e),
        },
{
    validate_bet(bet_amount, bet_type, bet_value)?;
    let (first, second) = roll_two_dice(time_seed, &ctx.player);
    let won = is_winning_bet(bet_type, bet_value, first + second);
    let payout = compute_payout(bet_amount, bet_type, ctx.game_state.house_edge);
    let paid = settle(ctx, bet_amount, won, payout)?;
    Ok(RollOutcome { first_die: first, second_die: second, won, payout: paid })
}

/// Settles one single-die guess: validates it, rolls, and applies every
/// effect at once. On any failure the ledger is left exactly as it was.
pub fn roll_single_die(
    ctx: &mut RollDice,
    bet_amount: u64,
    selected_number: u8,
    time_seed: u64,
) -> (r: Result<RollOutcome, ErrorCode>)
    ensures
        match single_roll_verdict(*old(ctx), bet_amount, selected_number, time_seed) {
            Ok((after, outcome)) => *final(ctx) == after && r == Ok::<RollOutcome, ErrorCode>(
                outcome,
            ),
            Err(e) => *final(ctx) == *old(ctx) && r == Err::<RollOutcome, ErrorCode>(e),
        },
{
    validate_guess(bet_amount, selected_number)?;
    let rolled = roll_die(time_seed, ctx.player[0]);
    let won = rolled == selected_number;
    let payout = compute_guess_payout(bet_amount, ctx.game_state.house_edge);
    let paid = settle(ctx, bet_amount, won, payout)?;
    Ok(RollOutcome { first_die: rolled, second_die: 0, won, payout: paid })
}

} // verus!
