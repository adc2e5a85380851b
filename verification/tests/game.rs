use terra_vegas::error::StdError;
use terra_vegas::game::GameKind;
use terra_vegas::payout::{player_winnings, win_amount};
use terra_vegas::decimal::Decimal;

fn random_bytes(first: [u8; 4], second: [u8; 4]) -> Vec<u8> {
    let mut bytes = vec![0u8; 32];
    bytes[12..16].copy_from_slice(&first);
    bytes[28..32].copy_from_slice(&second);
    bytes
}

#[test]
fn dice_are_the_halves_modulo_six() {
    // 0x12345680 and 0x90123458 both leave 2 modulo 6: two threes.
    let bytes = random_bytes([0x12, 0x34, 0x56, 0x80], [0x90, 0x12, 0x34, 0x58]);
    assert_eq!(GameKind::DoubleDice.rolled_outcome(&bytes), Ok(6));
    assert_eq!(GameKind::Coinflip.rolled_outcome(&bytes), Ok(0));
}

#[test]
fn dice_use_all_sixteen_bytes_of_a_half() {
    let mut bytes = vec![0u8; 32];
    bytes[0] = 1;
    // 2^120 leaves 4 modulo 6: a five and a one.
    assert_eq!(GameKind::DoubleDice.rolled_outcome(&bytes), Ok(6));
    let all = vec![0xffu8; 32];
    let expected = (u128::MAX % 6) as u8 + 1;
    assert_eq!(GameKind::DoubleDice.rolled_outcome(&all), Ok(2 * expected));
}

#[test]
fn coin_shows_tail_only_where_the_first_die_is_lower() {
    let lower = random_bytes([0, 0, 0, 0], [0, 0, 0, 1]);
    assert_eq!(GameKind::Coinflip.rolled_outcome(&lower), Ok(1));
    let higher = random_bytes([0, 0, 0, 1], [0, 0, 0, 0]);
    assert_eq!(GameKind::Coinflip.rolled_outcome(&higher), Ok(0));
    let tie = random_bytes([0, 0, 0, 4], [0, 0, 0, 4]);
    assert_eq!(GameKind::Coinflip.rolled_outcome(&tie), Ok(0));
}

#[test]
fn dice_totals_range_from_two_to_twelve() {
    let lowest = random_bytes([0, 0, 0, 0], [0, 0, 0, 0]);
    assert_eq!(GameKind::DoubleDice.rolled_outcome(&lowest), Ok(2));
    let highest = random_bytes([0, 0, 0, 5], [0, 0, 0, 5]);
    assert_eq!(GameKind::DoubleDice.rolled_outcome(&highest), Ok(12));
}

#[test]
fn randomness_must_have_32_bytes() {
    assert_eq!(
        GameKind::DoubleDice.rolled_outcome(&vec![0u8; 31]),
        Err(StdError::InvalidDataSize { expected: 32, actual: 31 })
    );
    assert_eq!(
        GameKind::Coinflip.rolled_outcome(&vec![]),
        Err(StdError::InvalidDataSize { expected: 32, actual: 0 })
    );
}

#[test]
fn outcome_ranges() {
    assert_eq!((GameKind::Coinflip.min_outcome(), GameKind::Coinflip.max_outcome()), (0, 1));
    assert_eq!((GameKind::DoubleDice.min_outcome(), GameKind::DoubleDice.max_outcome()), (3, 12));
    assert_eq!(GameKind::Coinflip.coefficient_count(), 1);
    assert_eq!(GameKind::DoubleDice.coefficient_count(), 10);
    assert_eq!(GameKind::DoubleDice.coefficient_index(3), 0);
    assert_eq!(GameKind::DoubleDice.coefficient_index(12), 9);
    assert_eq!(GameKind::Coinflip.coefficient_index(1), 0);
}

#[test]
fn who_wins() {
    assert!(GameKind::DoubleDice.wins(5, 6));
    assert!(GameKind::DoubleDice.wins(6, 6));
    assert!(!GameKind::DoubleDice.wins(7, 6));
    assert!(GameKind::Coinflip.wins(1, 1));
    assert!(!GameKind::Coinflip.wins(0, 1));
}

#[test]
fn coinflip_win_of_a_matching_bet() {
    // stake 1000, coefficient 0.188, one percent tax on wins:
    // 1000 + floor(floor(1000 * 0.188) * 0.99) = 1000 + floor(188 * 0.99) = 1186
    let coefficient = Decimal::from_str("0.188").unwrap();
    let left = Decimal::from_str("0.99").unwrap();
    assert_eq!(win_amount(1000, coefficient, left), Some(1186));
    let bets = vec![(1u8, 1000u128)];
    assert_eq!(
        player_winnings(GameKind::Coinflip, &vec![coefficient], left, 1, &bets),
        Some(1186)
    );
    assert_eq!(player_winnings(GameKind::Coinflip, &vec![coefficient], left, 0, &bets), Some(0));
}

#[test]
fn dice_win_of_a_bet_below_the_total() {
    let table = terra_vegas::doubledice::recalculate_win_coefficients("0.01").unwrap();
    let left = Decimal::from_str("0.99").unwrap();
    assert_eq!(table[2], Decimal::from_str("0.188").unwrap());
    let bets = vec![(5u8, 1000u128)];
    assert_eq!(player_winnings(GameKind::DoubleDice, &table, left, 6, &bets), Some(1186));
    assert_eq!(player_winnings(GameKind::DoubleDice, &table, left, 4, &bets), Some(0));
    let more = vec![(5u8, 1000u128), (7, 500), (3, 100)];
    // 1186 for the bet on 5, nothing for 7, 100 + floor(floor(100 * 0.0182857...) * 0.99) = 100
    assert_eq!(player_winnings(GameKind::DoubleDice, &table, left, 6, &more), Some(1286));
}

#[test]
fn winnings_beyond_the_range_are_none() {
    let coefficient = Decimal::one();
    let left = Decimal::one();
    assert_eq!(win_amount(u128::MAX, coefficient, left), None);
    assert_eq!(win_amount(u128::MAX / 2, coefficient, left), Some(u128::MAX - 1));
    let bets = vec![(1u8, u128::MAX / 2), (1, 1)];
    assert_eq!(player_winnings(GameKind::Coinflip, &vec![coefficient], left, 1, &bets), None);
}
