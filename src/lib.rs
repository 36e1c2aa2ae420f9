//! A dice wagering engine: bet validation, outcome derivation, payout
//! computation and atomic settlement against a modelled ledger.
pub mod bet;
pub mod entropy;
pub mod laws;
pub mod ledger;
pub mod payout;

pub use bet::{minimum_bet, validate_bet, validate_guess, BetType, ErrorCode};
pub use entropy::{is_winning_bet, roll_die, roll_two_dice};
pub use ledger::{
    initialize, roll_dice, roll_single_die, settle, GameState, Initialize, RollDice, RollOutcome,
};
pub use payout::{compute_guess_payout, compute_payout, gross_win, house_edge_amount, net_payout};
