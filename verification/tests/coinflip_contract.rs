use terra_vegas::admin::InstantiateMsg;
use terra_vegas::decimal::Decimal;
use terra_vegas::error::{ContractError, PaymentError};
use terra_vegas::game::GameKind;
use terra_vegas::msg::{Bets, CurrentRound, OutcomeHistory, Rewards, WinCoefficients};
use terra_vegas::payment::Coin;
use terra_vegas::settlement::{GameState, LatestRandomness};
use terra_vegas::tax::TaxPolicy;
use terra_vegas::timer::{RoundStatus, DRAND_PERIOD_SECONDS};
use terra_vegas::treasury::TreasuryAction;

const NOW: u64 = 1_571_797_419;
const RESERVE_BALANCE: u128 = 1000;

fn coins(amount: u128, denom: &str) -> Vec<Coin> {
    vec![Coin { denom: denom.to_string(), amount }]
}

fn new_game(max_number_of_bets: u64) -> GameState {
    let msg = InstantiateMsg {
        gov_contract_address: "gov-contract".to_string(),
        native_denom: "uusd".to_string(),
        advantage_value: "0.01".to_string(),
        win_tax: "0.01".to_string(),
        max_number_of_bets,
        max_betting_ratio: 1,
        round_duration: 10,
        max_cashflow: 10000,
        terrand_address: "terrand".to_string(),
        reserve_address: "reserve".to_string(),
    };
    GameState::instantiate(GameKind::Coinflip, "creator".to_string(), &vec![], msg, NOW).unwrap()
}

/// The first die shows `first + 1`, the second `second + 1`.
fn randomness(round: u64, first: u8, second: u8) -> LatestRandomness {
    let mut bytes = vec![0u8; 32];
    bytes[15] = first;
    bytes[31] = second;
    LatestRandomness { round, randomness: bytes }
}

fn no_tax() -> TaxPolicy {
    TaxPolicy { rate: Decimal::zero(), cap: 100 }
}

fn bet(
    state: &GameState,
    now: u64,
    sender: &str,
    funds: Vec<Coin>,
    outcome: u8,
) -> Result<(GameState, TreasuryAction), ContractError> {
    state.clone().execute_bet(
        now,
        &sender.to_string(),
        &funds,
        outcome,
        &randomness(1, 2, 2),
        RESERVE_BALANCE,
        0,
        &no_tax(),
    )
}

#[test]
fn coinflip_proper_initialization() {
    let state = new_game(1);
    assert_eq!(
        state.query_win_coefficient(),
        WinCoefficients { coefficients: "0.98".to_string() }
    );
    assert_eq!(state.query_win_coefficients().coefficients, vec!["0.98".to_string()]);
}

#[test]
fn coinflip_betting() {
    let state = new_game(3);

    let res = bet(&state, NOW, "user", vec![], 99);
    assert_eq!(
        res,
        Err(ContractError::InvalidBetPosition {
            current_position: 99,
            min_position: 0,
            max_position: 1,
        })
    );

    let res = bet(&state, NOW, "user", vec![], 1);
    assert_eq!(res, Err(ContractError::Payment(PaymentError::NoFunds)));

    let res = bet(&state, NOW, "user", coins(123, "token"), 1);
    assert_eq!(
        res,
        Err(ContractError::Payment(PaymentError::MissingDenom("uusd".to_string())))
    );

    let two = vec![
        Coin { denom: "uusd".to_string(), amount: 1 },
        Coin { denom: "token".to_string(), amount: 1 },
    ];
    let res = bet(&state, NOW, "user", two, 1);
    assert_eq!(res, Err(ContractError::Payment(PaymentError::MultipleDenoms)));

    let res = bet(&state, NOW, "user", coins(0, "uusd"), 1);
    assert_eq!(res, Err(ContractError::Payment(PaymentError::NoFunds)));

    // if called after round ended, new round starts
    let future = NOW + 20 + DRAND_PERIOD_SECONDS;
    let (state, action) = bet(&state, future, "user", coins(123, "uusd"), 1).unwrap();
    assert_eq!(action, TreasuryAction::Nothing);
    assert_eq!(state.timer.current_round(), 1);

    // betting too much
    let res = bet(&state, NOW, "user", coins(2000, "uusd"), 1);
    assert_eq!(
        res,
        Err(ContractError::BetAmountExceedsLimit {
            current_bet: 2000,
            total_bet: 123,
            total_bet_limit: 1000,
        })
    );

    let (state, action) = bet(&state, NOW, "user", coins(100, "uusd"), 1).unwrap();
    assert_eq!(action, TreasuryAction::Nothing);
    let (state, action) = bet(&state, NOW, "user", coins(23, "uusd"), 0).unwrap();
    assert_eq!(action, TreasuryAction::Nothing);

    // the limit holds for each player by themselves
    let res = bet(&state, NOW, "user-2", coins(1001, "uusd"), 1);
    assert_eq!(
        res,
        Err(ContractError::BetAmountExceedsLimit {
            current_bet: 1001,
            total_bet: 0,
            total_bet_limit: 1000,
        })
    );
    let (state, action) = bet(&state, NOW, "user-2", coins(1000, "uusd"), 1).unwrap();
    assert_eq!(action, TreasuryAction::Nothing);

    let value = state.query_bets_address_for_round(&"user".to_string(), 1);
    assert_eq!(value, Bets { round: 1, bets: Some(vec![(1, 123), (1, 100), (0, 23)]) });
    let value = state.query_bets_address_for_round(&"user".to_string(), 2);
    assert_eq!(value, Bets { round: 2, bets: None });

    let res = bet(&state, NOW, "user", coins(123, "uusd"), 1);
    assert_eq!(
        res,
        Err(ContractError::MaxAmountOfBetsThisRound {
            bets_this_round: 3,
            max_bets_per_round: 3,
        })
    );
    assert_eq!(state.query_player_rewards(&"user".to_string()), Rewards { rewards: 0 });
}

#[test]
fn coinflip_ending_round() {
    let state = new_game(1);
    let value = state.query_current_round(NOW, &randomness(0, 0, 0));
    assert_eq!(value, CurrentRound { round: 0, status: RoundStatus::Live, drand_round: 0 });

    let (state, action) = bet(&state, NOW, "user", coins(1000, "uusd"), 1).unwrap();
    assert_eq!(action, TreasuryAction::Nothing);
    let (mut state, action) = bet(&state, NOW, "other", coins(500, "uusd"), 0).unwrap();
    assert_eq!(action, TreasuryAction::Nothing);

    let later = NOW + 10 + DRAND_PERIOD_SECONDS + 1;
    let value = state.query_current_round(later, &randomness(1, 0, 0));
    assert_eq!(
        value,
        CurrentRound { round: 0, status: RoundStatus::WaitingOnRandomness, drand_round: 0 }
    );
    state.last_randomness_round = 0;

    // the first die shows 2, the second 5: tail
    // the win is 1000 + floor(floor(1000 * 0.98) * 0.99) = 1000 + 970 = 1970
    let (mut state, action) = state
        .execute_bet(
            later,
            &"user".to_string(),
            &coins(10, "uusd"),
            1,
            &randomness(1, 1, 4),
            RESERVE_BALANCE,
            70,
            &no_tax(),
        )
        .unwrap();
    assert_eq!(action, TreasuryAction::RequestFunds { amount: 1900 });
    assert_eq!(state.query_outcome_history(), OutcomeHistory { outcomes: vec![(0, 1)] });
    assert_eq!(state.query_total_rewards().total_rewards, 1970);
    assert_eq!(state.query_player_rewards(&"user".to_string()), Rewards { rewards: 1970 });
    assert_eq!(state.query_player_rewards(&"other".to_string()), Rewards { rewards: 0 });
    assert_eq!(
        state.query_bets_address_for_round(&"user".to_string(), 1),
        Bets { round: 1, bets: Some(vec![(1, 10)]) }
    );

    let sent = state.execute_receive_rewards(&"user".to_string(), &vec![], &no_tax()).unwrap();
    assert_eq!(sent, Some(1970));
    assert_eq!(state.query_player_rewards(&"user".to_string()), Rewards { rewards: 0 });
    assert_eq!(state.query_total_rewards().total_rewards, 0);
    let value = state.query_current_round(later, &randomness(1, 1, 4));
    assert_eq!(value, CurrentRound { round: 1, status: RoundStatus::Live, drand_round: 1 });
}

#[test]
fn coinflip_tie_goes_to_the_head() {
    let state = new_game(1);
    let (state, action) = bet(&state, NOW, "tail", coins(100, "uusd"), 1).unwrap();
    assert_eq!(action, TreasuryAction::Nothing);
    let (state, action) = bet(&state, NOW, "head", coins(100, "uusd"), 0).unwrap();
    assert_eq!(action, TreasuryAction::Nothing);
    let (state, _) = state.end_round(NOW + 50, &randomness(2, 3, 3), 10_000, &no_tax()).unwrap();
    assert_eq!(state.outcomes_history, vec![(0, 0)]);
    assert_eq!(state.rewards.reward(&"head".to_string()), 197);
    assert_eq!(state.rewards.reward(&"tail".to_string()), 0);
    assert_eq!(state.rewards.total, 197);
}

#[test]
fn coinflip_matching_bet_of_1000_pays_1186() {
    // a matching bet of 1000 with a coefficient of 0.188 and one percent tax on
    // wins pays 1000 + floor(188 * 0.99) = 1186
    let mut state = new_game(1);
    state.config.win_coefficents = vec![Decimal::from_str("0.188").unwrap()];
    let (state, action) = bet(&state, NOW, "user", coins(1000, "uusd"), 0).unwrap();
    assert_eq!(action, TreasuryAction::Nothing);
    let (state, action) = state.end_round(NOW + 50, &randomness(2, 3, 3), 0, &no_tax()).unwrap();
    assert_eq!(state.rewards.reward(&"user".to_string()), 1186);
    assert_eq!(action, TreasuryAction::RequestFunds { amount: 1186 });
}
