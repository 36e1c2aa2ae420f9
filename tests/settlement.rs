use dice_settlement::{
    compute_guess_payout, compute_payout, gross_win, house_edge_amount, initialize,
    is_winning_bet, minimum_bet, net_payout, roll_dice, roll_die, roll_single_die,
    roll_two_dice, settle, validate_bet, validate_guess, BetType, ErrorCode, GameState,
    Initialize, RollDice,
};

const BET: u64 = 100_000_000;

fn table(player: [u8; 32], house_edge: u8, vault: u64, player_balance: u64) -> RollDice {
    RollDice {
        game_state: GameState {
            authority: [7u8; 32],
            house_edge,
            total_bets: 0,
            total_wins: 0,
        },
        vault_balance: vault,
        player,
        player_balance,
    }
}

#[test]
fn payout_single_number_rounding() {
    assert_eq!(gross_win(100, BetType::SingleNumber), Ok(1000));
    assert_eq!(house_edge_amount(1000, 5), 50);
    assert_eq!(compute_payout(100, BetType::SingleNumber, 5), Ok(950));
}

#[test]
fn payout_even_odd_rounding() {
    assert_eq!(gross_win(100, BetType::EvenOdd), Ok(200));
    assert_eq!(house_edge_amount(200, 5), 10);
    assert_eq!(compute_payout(100, BetType::EvenOdd, 5), Ok(190));
}

#[test]
fn payout_low_high_rounding() {
    assert_eq!(gross_win(100, BetType::LowHigh), Ok(150));
    assert_eq!(house_edge_amount(150, 5), 7);
    assert_eq!(compute_payout(100, BetType::LowHigh, 5), Ok(143));
}

#[test]
fn payout_single_die_doubles() {
    assert_eq!(compute_guess_payout(100, 5), Ok(190));
    assert_eq!(compute_guess_payout(BET, 0), Ok(2 * BET));
}

#[test]
fn payout_overflow_is_an_error() {
    assert_eq!(gross_win(u64::MAX / 10 + 1, BetType::SingleNumber), Err(ErrorCode::ArithmeticOverflow));
    // Three times the wager overflows even though one and a half times fits.
    assert_eq!(gross_win(u64::MAX / 3 + 1, BetType::LowHigh), Err(ErrorCode::ArithmeticOverflow));
    assert_eq!(gross_win(u64::MAX / 3, BetType::LowHigh), Ok(u64::MAX / 3 * 3 / 2));
    assert_eq!(compute_guess_payout(u64::MAX / 2 + 1, 5), Err(ErrorCode::ArithmeticOverflow));
    // An edge above 100 percent takes more than the gross win.
    assert_eq!(net_payout(200, 150), Err(ErrorCode::ArithmeticOverflow));
    assert_eq!(net_payout(200, 100), Ok(0));
    assert_eq!(house_edge_amount(u64::MAX, 255), (u64::MAX as u128) * 255 / 100);
}

#[test]
fn minimum_bet_is_a_tenth_of_a_coin() {
    assert_eq!(minimum_bet(), 100_000_000);
}

#[test]
fn rejects_zero_amount() {
    assert_eq!(validate_bet(0, BetType::SingleNumber, 7), Err(ErrorCode::BetTooSmall));
    assert_eq!(validate_bet(BET - 1, BetType::EvenOdd, 0), Err(ErrorCode::BetTooSmall));
    assert_eq!(validate_guess(0, 3), Err(ErrorCode::BetTooSmall));
}

#[test]
fn rejects_single_number_thirteen() {
    assert_eq!(validate_bet(BET, BetType::SingleNumber, 13), Err(ErrorCode::InvalidBetValue));
    assert_eq!(validate_bet(BET, BetType::SingleNumber, 1), Err(ErrorCode::InvalidBetValue));
    assert_eq!(validate_bet(BET, BetType::SingleNumber, 2), Ok(()));
    assert_eq!(validate_bet(BET, BetType::SingleNumber, 12), Ok(()));
}

#[test]
fn rejects_even_odd_two() {
    assert_eq!(validate_bet(BET, BetType::EvenOdd, 2), Err(ErrorCode::InvalidBetValue));
    assert_eq!(validate_bet(BET, BetType::LowHigh, 2), Err(ErrorCode::InvalidBetValue));
    assert_eq!(validate_bet(BET, BetType::LowHigh, 1), Ok(()));
}

#[test]
fn rejects_guess_out_of_range() {
    assert_eq!(validate_guess(BET, 0), Err(ErrorCode::InvalidNumber));
    assert_eq!(validate_guess(BET, 7), Err(ErrorCode::InvalidNumber));
    assert_eq!(validate_guess(BET, 6), Ok(()));
}

#[test]
fn rejected_bet_leaves_ledger_unchanged() {
    let mut ctx = table([0u8; 32], 5, 10 * BET, 10 * BET);
    let before = ctx;
    assert_eq!(roll_dice(&mut ctx, 0, BetType::SingleNumber, 2, 0), Err(ErrorCode::BetTooSmall));
    assert_eq!(roll_dice(&mut ctx, BET, BetType::SingleNumber, 13, 0), Err(ErrorCode::InvalidBetValue));
    assert_eq!(roll_dice(&mut ctx, BET, BetType::EvenOdd, 2, 0), Err(ErrorCode::InvalidBetValue));
    assert_eq!(roll_single_die(&mut ctx, BET, 9, 0), Err(ErrorCode::InvalidNumber));
    assert_eq!(ctx, before);
}

#[test]
fn dice_follow_the_seed_formula() {
    assert_eq!(roll_die(0, 0), 1);
    assert_eq!(roll_die(5, 3), 1);
    assert_eq!(roll_die(5, 0), 6);
    assert_eq!(roll_die(1_700_000_000, 0xab), ((1_700_000_000u64 ^ 0xab) % 6 + 1) as u8);
    let mut id = [0u8; 32];
    id[0] = 3;
    assert_eq!(roll_two_dice(5, &id), (1, 6));
}

#[test]
fn win_rules_per_bet_type() {
    assert!(is_winning_bet(BetType::SingleNumber, 7, 7));
    assert!(!is_winning_bet(BetType::SingleNumber, 8, 7));
    assert!(is_winning_bet(BetType::EvenOdd, 0, 8));
    assert!(!is_winning_bet(BetType::EvenOdd, 1, 8));
    assert!(is_winning_bet(BetType::EvenOdd, 1, 7));
    assert!(is_winning_bet(BetType::LowHigh, 1, 7));
    assert!(!is_winning_bet(BetType::LowHigh, 0, 7));
    assert!(is_winning_bet(BetType::LowHigh, 0, 6));
}

#[test]
fn winning_roll_pays_net_of_edge() {
    // Seed 0 and identifier bytes 0 give two ones: a total of 2.
    let mut ctx = table([0u8; 32], 5, 10 * BET, 10 * BET);
    let out = roll_dice(&mut ctx, BET, BetType::SingleNumber, 2, 0).unwrap();
    assert_eq!((out.first_die, out.second_die, out.won), (1, 1, true));
    assert_eq!(out.payout, 950_000_000);
    assert_eq!(ctx.player_balance, 10 * BET - BET + 950_000_000);
    assert_eq!(ctx.vault_balance, 10 * BET + BET - 950_000_000);
    assert_eq!(ctx.game_state.total_bets, 1);
    assert_eq!(ctx.game_state.total_wins, 1);
}

#[test]
fn losing_roll_keeps_the_wager() {
    let mut ctx = table([0u8; 32], 5, 10 * BET, 10 * BET);
    let out = roll_dice(&mut ctx, BET, BetType::LowHigh, 1, 0).unwrap();
    assert_eq!((out.won, out.payout), (false, 0));
    assert_eq!(ctx.player_balance, 9 * BET);
    assert_eq!(ctx.vault_balance, 11 * BET);
    assert_eq!(ctx.game_state.total_bets, 1);
    assert_eq!(ctx.game_state.total_wins, 0);
}

#[test]
fn even_odd_and_low_high_wins() {
    let mut ctx = table([0u8; 32], 5, 10 * BET, 10 * BET);
    let out = roll_dice(&mut ctx, BET, BetType::EvenOdd, 0, 0).unwrap();
    assert_eq!((out.won, out.payout), (true, 190_000_000));
    let out = roll_dice(&mut ctx, BET, BetType::LowHigh, 0, 0).unwrap();
    assert_eq!((out.won, out.payout), (true, 142_500_000));
    assert_eq!(ctx.game_state.total_bets, 2);
    assert_eq!(ctx.game_state.total_wins, 2);
}

#[test]
fn single_die_guess_settles() {
    let mut ctx = table([0u8; 32], 5, 10 * BET, 10 * BET);
    let out = roll_single_die(&mut ctx, BET, 1, 0).unwrap();
    assert_eq!((out.first_die, out.second_die, out.won, out.payout), (1, 0, true, 190_000_000));
    let out = roll_single_die(&mut ctx, BET, 4, 0).unwrap();
    assert_eq!((out.won, out.payout), (false, 0));
    assert_eq!(ctx.player_balance, 10 * BET - 2 * BET + 190_000_000);
    assert_eq!(ctx.game_state.total_bets, 2);
    assert_eq!(ctx.game_state.total_wins, 1);
}

#[test]
fn each_settled_bet_counts_once() {
    let mut ctx = table([0u8; 32], 5, 100 * BET, 100 * BET);
    for i in 0..10u64 {
        let before = ctx.game_state.total_bets;
        let value = (i % 11) as u8 + 2;
        roll_dice(&mut ctx, BET, BetType::SingleNumber, value, i).unwrap();
        assert_eq!(ctx.game_state.total_bets, before + 1);
    }
    assert_eq!(ctx.game_state.total_bets, 10);
}

#[test]
fn wins_never_exceed_bets() {
    let mut ctx = table([3u8; 32], 5, 1000 * BET, 1000 * BET);
    for seed in 0..40u64 {
        let _ = roll_dice(&mut ctx, BET, BetType::EvenOdd, (seed % 2) as u8, seed);
        let _ = roll_single_die(&mut ctx, BET, (seed % 6) as u8 + 1, seed);
        let _ = roll_dice(&mut ctx, BET, BetType::SingleNumber, 20, seed);
        assert!(ctx.game_state.total_wins <= ctx.game_state.total_bets);
    }
    assert_eq!(ctx.game_state.total_bets, 80);
}

#[test]
fn outcome_is_deterministic() {
    let mut id = [9u8; 32];
    id[0] = 200;
    id[1] = 17;
    let mut a = table(id, 5, 10 * BET, 10 * BET);
    let mut other = id;
    other[5] = 1;
    let mut b = table(other, 20, 50 * BET, 3 * BET);
    b.game_state.total_bets = 40;
    let oa = roll_dice(&mut a, BET, BetType::LowHigh, 1, 1_700_000_123).unwrap();
    let ob = roll_dice(&mut b, BET, BetType::LowHigh, 1, 1_700_000_123).unwrap();
    assert_eq!((oa.first_die, oa.second_die, oa.won), (ob.first_die, ob.second_die, ob.won));
}

#[test]
fn vault_shortfall_fails_without_partial_payout() {
    let mut ctx = table([0u8; 32], 5, 0, 10 * BET);
    let before = ctx;
    assert_eq!(
        roll_dice(&mut ctx, BET, BetType::SingleNumber, 2, 0),
        Err(ErrorCode::InsufficientFunds)
    );
    assert_eq!(ctx, before);
}

#[test]
fn failure_after_debit_rolls_back() {
    let mut ctx = table([0u8; 32], 5, 10 * BET, 10 * BET);
    ctx.game_state.total_bets = u64::MAX;
    ctx.game_state.total_wins = 3;
    let before = ctx;
    assert_eq!(
        roll_dice(&mut ctx, BET, BetType::SingleNumber, 2, 0),
        Err(ErrorCode::ArithmeticOverflow)
    );
    assert_eq!(ctx, before);
    let mut ctx = table([0u8; 32], 5, 10 * BET, u64::MAX - 100);
    let before = ctx;
    assert_eq!(
        settle(&mut ctx, 100, true, Ok(1000)),
        Err(ErrorCode::ArithmeticOverflow)
    );
    assert_eq!(ctx, before);
    assert_eq!(settle(&mut ctx, 100, true, Err(ErrorCode::ArithmeticOverflow)), Err(ErrorCode::ArithmeticOverflow));
    assert_eq!(ctx, before);
}

#[test]
fn player_must_cover_the_wager() {
    let mut ctx = table([0u8; 32], 5, 10 * BET, BET - 1);
    let before = ctx;
    assert_eq!(roll_dice(&mut ctx, BET, BetType::EvenOdd, 0, 0), Err(ErrorCode::InsufficientFunds));
    assert_eq!(ctx, before);
}

#[test]
fn initialize_creates_zeroed_state() {
    let mut ctx = Initialize { game_state: None, authority: [4u8; 32] };
    assert_eq!(initialize(&mut ctx, 5), Ok(()));
    let gs = ctx.game_state.unwrap();
    assert_eq!((gs.authority, gs.house_edge, gs.total_bets, gs.total_wins), ([4u8; 32], 5, 0, 0));
    assert_eq!(initialize(&mut ctx, 7), Err(ErrorCode::AlreadyInitialized));
    assert_eq!(ctx.game_state.unwrap().house_edge, 5);
    let mut fresh = Initialize { game_state: None, authority: [4u8; 32] };
    assert_eq!(initialize(&mut fresh, 101), Err(ErrorCode::InvalidHouseEdge));
    assert_eq!(fresh.game_state, None);
    assert_eq!(GameState::LEN, 49);
}
