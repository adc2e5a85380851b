use terra_vegas::admin::InstantiateMsg;
use terra_vegas::decimal::Decimal;
use terra_vegas::error::{ContractError, PaymentError};
use terra_vegas::game::GameKind;
use terra_vegas::msg::{Bets, BettingLimit, CurrentRound, OutcomeHistory, Rewards};
use terra_vegas::payment::Coin;
use terra_vegas::settlement::{GameState, LatestRandomness};
use terra_vegas::tax::TaxPolicy;
use terra_vegas::timer::{RoundStatus, DRAND_PERIOD_SECONDS};
use terra_vegas::treasury::TreasuryAction;

const NOW: u64 = 1_571_797_419;
const RESERVE_BALANCE: u128 = 1000;

fn coins(amount: u128, denom: &str) -> Vec<Coin> {
    vec![Coin { denom: denom.to_string(), amount }]
}

fn init_msg(max_number_of_bets: u64) -> InstantiateMsg {
    InstantiateMsg {
        gov_contract_address: "gov-contract".to_string(),
        native_denom: "uusd".to_string(),
        advantage_value: "0.01".to_string(),
        win_tax: "0.01".to_string(),
        max_number_of_bets,
        max_betting_ratio: 1,
        round_duration: 10,
        max_cashflow: 10000,
        terrand_address: "terrand".to_string(),
        reserve_address: "reserve".to_string(),
    }
}

fn new_game(max_number_of_bets: u64) -> GameState {
    GameState::instantiate(
        GameKind::DoubleDice,
        "creator".to_string(),
        &vec![],
        init_msg(max_number_of_bets),
        NOW,
    )
    .unwrap()
}

fn randomness(round: u64) -> LatestRandomness {
    LatestRandomness {
        round,
        randomness: vec![
            0, 0, 0, 0, 0, 0, 0, 0, 0, 0, 0, 0, 0x12, 0x34, 0x56, 0x80, 0, 0, 0, 0, 0, 0, 0, 0, 0,
            0, 0, 0, 0x90, 0x12, 0x34, 0x58,
        ],
    }
}

fn no_tax() -> TaxPolicy {
    TaxPolicy { rate: Decimal::zero(), cap: 100 }
}

fn bet(
    state: &GameState,
    now: u64,
    sender: &str,
    funds: Vec<Coin>,
    outcome: u8,
) -> Result<(GameState, TreasuryAction), ContractError> {
    state.clone().execute_bet(
        now,
        &sender.to_string(),
        &funds,
        outcome,
        &randomness(1),
        RESERVE_BALANCE,
        0,
        &no_tax(),
    )
}

#[test]
fn contract_proper_initialization() {
    let state = new_game(1);
    let value = state.query_win_coefficients();
    assert_eq!(
        value.coefficients,
        vec![
            "0.018285714285714285".to_string(),
            "0.08".to_string(),
            "0.188".to_string(),
            "0.370769230769230769".to_string(),
            "0.697142857142857142".to_string(),
            "1.376".to_string(),
            "2.564".to_string(),
            "4.94".to_string(),
            "10.88".to_string(),
            "34.64".to_string(),
        ]
    );
    assert_eq!(state.config.win_tax, Decimal::from_str("0.99").unwrap());
    assert_eq!(state.owner, "creator");
    assert_eq!(state.timer.current_round(), 0);
    assert_eq!(state.rewards.total, 0);
}

#[test]
fn instantiate_accepts_no_funds() {
    let res = GameState::instantiate(
        GameKind::DoubleDice,
        "creator".to_string(),
        &coins(1, "uusd"),
        init_msg(1),
        NOW,
    );
    assert_eq!(res, Err(ContractError::Payment(PaymentError::NonPayable)));
}

#[test]
fn contract_betting() {
    let state = new_game(3);

    // checking for different invalid inputs
    let res = bet(&state, NOW, "user", vec![], 99);
    assert_eq!(
        res,
        Err(ContractError::InvalidBetPosition {
            current_position: 99,
            min_position: 3,
            max_position: 12,
        })
    );

    let res = bet(&state, NOW, "user", vec![], 5);
    assert_eq!(res, Err(ContractError::Payment(PaymentError::NoFunds)));

    let res = bet(&state, NOW, "user", coins(123, "token"), 5);
    assert_eq!(
        res,
        Err(ContractError::Payment(PaymentError::MissingDenom("uusd".to_string())))
    );

    // if called after round ended, new round starts
    let future = NOW + 20 + DRAND_PERIOD_SECONDS;
    let (state, action) = bet(&state, future, "user", coins(123, "uusd"), 5).unwrap();
    assert_eq!(action, TreasuryAction::Nothing);
    assert_eq!(state.timer.current_round(), 1);

    // betting too much
    let res = bet(&state, NOW, "user", coins(2000, "uusd"), 5);
    assert_eq!(
        res,
        Err(ContractError::BetAmountExceedsLimit {
            current_bet: 2000,
            total_bet: 123,
            total_bet_limit: 1000,
        })
    );

    // successful bet
    let (state, action) = bet(&state, NOW, "user", coins(100, "uusd"), 5).unwrap();
    assert_eq!(action, TreasuryAction::Nothing);

    // another successful bet
    let (state, action) = bet(&state, NOW, "user", coins(23, "uusd"), 5).unwrap();
    assert_eq!(action, TreasuryAction::Nothing);

    let res = bet(&state, NOW, "user-2", coins(999, "uusd"), 5);
    assert_eq!(
        res,
        Err(ContractError::BetAmountExceedsLimit {
            current_bet: 999,
            total_bet: 246,
            total_bet_limit: 1000,
        })
    );

    let value = state.query_bets_address_for_round(&"user".to_string(), 1);
    assert_eq!(value, Bets { round: 1, bets: Some(vec![(5, 123), (5, 100), (5, 23)]) });

    let value = state.query_bets_address_for_round(&"user".to_string(), 2);
    assert_eq!(value, Bets { round: 2, bets: None });

    // checking for exceeding bets amount
    let res = bet(&state, NOW, "user", coins(123, "uusd"), 5);
    assert_eq!(
        res,
        Err(ContractError::MaxAmountOfBetsThisRound {
            bets_this_round: 3,
            max_bets_per_round: 3,
        })
    );

    let value = state.query_player_rewards(&"user".to_string());
    assert_eq!(value, Rewards { rewards: 0 });
}

#[test]
fn betting_limit() {
    let state = new_game(3);

    // if called after round ended, new round starts
    let future = NOW + 20 + DRAND_PERIOD_SECONDS;
    let (state, action) = bet(&state, future, "user", coins(123, "uusd"), 5).unwrap();
    assert_eq!(action, TreasuryAction::Nothing);

    // betting too much
    let res = bet(&state, NOW, "user", coins(2000, "uusd"), 5);
    assert_eq!(
        res,
        Err(ContractError::BetAmountExceedsLimit {
            current_bet: 2000,
            total_bet: 123,
            total_bet_limit: 1000,
        })
    );

    // betting too much other user
    let res = bet(&state, NOW, "user-2", coins(2000, "uusd"), 5);
    assert_eq!(
        res,
        Err(ContractError::BetAmountExceedsLimit {
            current_bet: 2000,
            total_bet: 123,
            total_bet_limit: 1000,
        })
    );

    // successful bet
    let (state, action) = bet(&state, NOW, "user", coins(100, "uusd"), 5).unwrap();
    assert_eq!(action, TreasuryAction::Nothing);
    // another successful bet
    let (state, action) = bet(&state, NOW, "user", coins(23, "uusd"), 5).unwrap();
    assert_eq!(action, TreasuryAction::Nothing);

    let value = state.query_active_betting_limit(NOW, &randomness(1), RESERVE_BALANCE);
    assert_eq!(value, Ok(BettingLimit { limit: 754 }));

    // another successful bet
    let (state, action) = bet(&state, NOW, "user-2", coins(46, "uusd"), 5).unwrap();
    assert_eq!(action, TreasuryAction::Nothing);

    let value = state.query_active_betting_limit(NOW, &randomness(1), RESERVE_BALANCE);
    assert_eq!(value, Ok(BettingLimit { limit: 708 }));

    let value = state.query_active_betting_limit(NOW, &randomness(1), RESERVE_BALANCE);
    assert_eq!(value, Ok(BettingLimit { limit: 708 }));

    let res = bet(&state, NOW, "user-2", coins(900, "uusd"), 5);
    assert_eq!(
        res,
        Err(ContractError::BetAmountExceedsLimit {
            current_bet: 900,
            total_bet: 292,
            total_bet_limit: 1000,
        })
    );
}

#[test]
fn largest_additional_bet_is_the_limit_less_what_is_committed() {
    let state = new_game(3);
    let future = NOW + 20 + DRAND_PERIOD_SECONDS;
    let (state, action) = bet(&state, future, "user", coins(123, "uusd"), 5).unwrap();
    assert_eq!(action, TreasuryAction::Nothing);
    assert_eq!(state.query_betting_limit(RESERVE_BALANCE), Ok(BettingLimit { limit: 1000 }));
    assert_eq!(
        state.query_active_betting_limit(NOW, &randomness(1), RESERVE_BALANCE),
        Ok(BettingLimit { limit: 877 })
    );
    let res = bet(&state, NOW, "user", coins(878, "uusd"), 5);
    assert_eq!(
        res,
        Err(ContractError::BetAmountExceedsLimit {
            current_bet: 878,
            total_bet: 123,
            total_bet_limit: 1000,
        })
    );
    let (state, action) = bet(&state, NOW, "user", coins(877, "uusd"), 5).unwrap();
    assert_eq!(action, TreasuryAction::Nothing);
    assert_eq!(
        state.query_active_betting_limit(NOW, &randomness(1), RESERVE_BALANCE),
        Ok(BettingLimit { limit: 0 })
    );
}

#[test]
fn queries() {
    let state = new_game(3);
    let future = NOW + 20 + DRAND_PERIOD_SECONDS;
    let (state, action) = bet(&state, future, "user", coins(123, "uusd"), 5).unwrap();
    assert_eq!(action, TreasuryAction::Nothing);
    let (state, action) = bet(&state, NOW, "user", coins(100, "uusd"), 5).unwrap();
    assert_eq!(action, TreasuryAction::Nothing);
    let (state, action) = bet(&state, NOW, "user", coins(23, "uusd"), 5).unwrap();
    assert_eq!(action, TreasuryAction::Nothing);
    let (state, action) = bet(&state, NOW, "user-2", coins(10, "uusd"), 5).unwrap();
    assert_eq!(action, TreasuryAction::Nothing);
    let (state, action) = bet(&state, NOW, "user-2", coins(100, "uusd"), 5).unwrap();
    assert_eq!(action, TreasuryAction::Nothing);
    let (state, action) = bet(&state, NOW, "user-2", coins(23, "uusd"), 5).unwrap();
    assert_eq!(action, TreasuryAction::Nothing);

    let value = state.query_bets_address_for_round(&"user".to_string(), 1);
    assert_eq!(value, Bets { round: 1, bets: Some(vec![(5, 123), (5, 100), (5, 23)]) });

    let value = state.query_active_betting_limit(NOW, &randomness(1), RESERVE_BALANCE);
    assert_eq!(value, Ok(BettingLimit { limit: 621 }));

    let value = state.query_bets_address_for_round(&"user".to_string(), 2);
    assert_eq!(value, Bets { round: 2, bets: None });

    let value = state.query_bets_address(&"user-2".to_string());
    assert_eq!(value, [Bets { round: 1, bets: Some(vec![(5, 10), (5, 100), (5, 23)]) }]);

    let value = state.query_all_bets(None, None);
    assert_eq!(
        value,
        [
            (
                String::from("user-2"),
                Bets { round: 1, bets: Some(vec![(5, 10), (5, 100), (5, 23)]) }
            ),
            (
                String::from("user"),
                Bets { round: 1, bets: Some(vec![(5, 123), (5, 100), (5, 23)]) }
            ),
        ]
    );

    let value = state.query_all_bets(Some((1u64, "user".to_string())), None);
    assert_eq!(
        value,
        [(
            String::from("user-2"),
            Bets { round: 1, bets: Some(vec![(5, 10), (5, 100), (5, 23)]) }
        )]
    );
}


#[test]
fn contract_ending_round() {
    let state = new_game(1);

    let value = state.query_current_round(NOW, &randomness(0));
    assert_eq!(value, CurrentRound { round: 0, status: RoundStatus::Live, drand_round: 0 });

    let (mut state, action) = state
        .execute_bet(
            NOW,
            &"user".to_string(),
            &coins(1000, "uusd"),
            5,
            &randomness(1),
            RESERVE_BALANCE,
            0,
            &no_tax(),
        )
        .unwrap();
    assert_eq!(action, TreasuryAction::Nothing);

    // round ended
    let later = NOW + 10 + DRAND_PERIOD_SECONDS + 1;
    let value = state.query_current_round(later, &randomness(1));
    assert_eq!(
        value,
        CurrentRound { round: 0, status: RoundStatus::WaitingOnRandomness, drand_round: 0 }
    );

    // imitating new randomness round
    state.last_randomness_round = 0;

    // the dice show 3 and 3: the outcome is 6, the bet is on 5, so the user won
    // the coefficient for 5 is 0.188 and the bet was 1000, so the win is 188,
    // 186 after one percent tax; the balance is 0, so 1186 are needed
    let (mut state, action) = state
        .execute_bet(
            later,
            &"user".to_string(),
            &coins(1000, "uusd"),
            5,
            &randomness(1),
            RESERVE_BALANCE,
            0,
            &no_tax(),
        )
        .unwrap();
    assert_eq!(action, TreasuryAction::RequestFunds { amount: 1186 });

    let value = state.query_outcome_history();
    assert_eq!(value, OutcomeHistory { outcomes: vec![(0, 6)] });

    assert_eq!(state.query_total_rewards().total_rewards, 1186);
    assert_eq!(state.query_player_rewards(&"user".to_string()), Rewards { rewards: 1186 });

    let sent = state.execute_receive_rewards(&"user".to_string(), &vec![], &no_tax()).unwrap();
    assert_eq!(sent, Some(1186));

    assert_eq!(state.query_player_rewards(&"user".to_string()), Rewards { rewards: 0 });
    assert_eq!(state.query_total_rewards().total_rewards, 0);

    let value = state.query_current_round(NOW, &randomness(1));
    assert_eq!(value, CurrentRound { round: 1, status: RoundStatus::Live, drand_round: 1 });
}

#[test]
fn total_rewards_is_the_sum_of_all_players_rewards() {
    let state = new_game(3);
    let (state, action) = bet(&state, NOW, "alice", coins(100, "uusd"), 5).unwrap();
    assert_eq!(action, TreasuryAction::Nothing);
    let (state, action) = bet(&state, NOW, "bob", coins(200, "uusd"), 3).unwrap();
    assert_eq!(action, TreasuryAction::Nothing);
    let (state, action) = bet(&state, NOW, "carol", coins(300, "uusd"), 12).unwrap();
    assert_eq!(action, TreasuryAction::Nothing);
    let later = NOW + 10 + DRAND_PERIOD_SECONDS;
    let (mut state, action) = state
        .end_round(later, &randomness(2), 5000, &no_tax())
        .unwrap();
    // alice: 100 + floor(floor(100 * 0.188) * 0.99) = 100 + floor(18 * 0.99) = 117
    // bob: 200 + floor(floor(200 * 0.018285714285714285) * 0.99) = 200 + floor(3 * 0.99) = 202
    // carol bet on 12 and lost
    assert_eq!(state.rewards.reward(&"alice".to_string()), 117);
    assert_eq!(state.rewards.reward(&"bob".to_string()), 202);
    assert_eq!(state.rewards.reward(&"carol".to_string()), 0);
    assert_eq!(state.rewards.total, 319);
    let sum: u128 = state.rewards.players.iter().map(|p| p.amount).sum();
    assert_eq!(state.rewards.total, sum);
    assert_eq!(action, TreasuryAction::Nothing);
    assert_eq!(state.timer.current_round(), 1);
    assert_eq!(state.timer.drand_round(), 2);
    assert_eq!(state.outcomes_history, vec![(0, 6)]);

    let sent = state.execute_receive_rewards(&"bob".to_string(), &vec![], &no_tax()).unwrap();
    assert_eq!(sent, Some(202));
    let sum: u128 = state.rewards.players.iter().map(|p| p.amount).sum();
    assert_eq!(state.rewards.total, 117);
    assert_eq!(state.rewards.total, sum);
    let sent = state.execute_receive_rewards(&"bob".to_string(), &vec![], &no_tax()).unwrap();
    assert_eq!(sent, None);
    let sent = state.execute_receive_rewards(&"nobody".to_string(), &vec![], &no_tax()).unwrap();
    assert_eq!(sent, None);
    assert_eq!(
        state.execute_receive_rewards(&"alice".to_string(), &coins(1, "uusd"), &no_tax()),
        Err(ContractError::Payment(PaymentError::NonPayable))
    );
    assert_eq!(state.rewards.total, 117);
}

#[test]
fn settlement_needs_new_randomness_of_32_bytes() {
    let state = new_game(3);
    assert_eq!(
        state.clone().end_round(NOW, &randomness(0), 0, &no_tax()),
        Err(ContractError::NewRandomnessNotYetAvailable)
    );
    let short = LatestRandomness { round: 1, randomness: vec![1, 2, 3] };
    assert_eq!(
        state.clone().end_round(NOW, &short, 0, &no_tax()),
        Err(ContractError::Std(terra_vegas::error::StdError::InvalidDataSize {
            expected: 32,
            actual: 3
        }))
    );
}

#[test]
fn every_settled_round_has_one_outcome() {
    let mut state = new_game(3);
    for round in 0..5u64 {
        assert_eq!(state.timer.current_round(), round);
        let (next, _) = state
            .end_round(NOW + round, &randomness(round + 1), 0, &no_tax())
            .unwrap();
        state = next;
        state.last_randomness_round = round + 1;
        assert_eq!(state.outcomes_history.len() as u64, round + 1);
    }
    let rounds: Vec<u64> = state.outcomes_history.iter().map(|o| o.0).collect();
    assert_eq!(rounds, vec![0, 1, 2, 3, 4]);
    assert_eq!(state.timer.current_round(), 5);
}

#[test]
fn settlement_pays_surplus_into_the_reserve() {
    let state = new_game(3);
    let tax = TaxPolicy { rate: Decimal::from_str("0.01").unwrap(), cap: 50 };
    let (_, action) = state.end_round(NOW, &randomness(1), 20_000, &tax).unwrap();
    assert_eq!(action, TreasuryAction::DepositFunds { amount: 19_950 });
}

#[test]
fn stopped_game_and_missing_randomness_refuse_bets() {
    let mut state = new_game(3);
    let later = NOW + 10 + DRAND_PERIOD_SECONDS;
    let res = state.clone().execute_bet(
        later,
        &"user".to_string(),
        &coins(10, "uusd"),
        5,
        &randomness(0),
        RESERVE_BALANCE,
        0,
        &no_tax(),
    );
    assert_eq!(res, Err(ContractError::NewRandomnessNotYetAvailable));
    assert_eq!(state.execute_stop_game(&"user".to_string(), &vec![]), Err(ContractError::Unauthorized));
    assert_eq!(state.execute_stop_game(&"gov-contract".to_string(), &vec![]), Ok(()));
    assert_eq!(
        bet(&state, NOW, "user", coins(10, "uusd"), 5),
        Err(ContractError::GameStopped)
    );
}

#[test]
fn bets_need_a_betting_ratio() {
    let mut state = new_game(3);
    state.execute_change_max_betting_ratio(&"creator".to_string(), &vec![], 0).unwrap();
    assert_eq!(
        bet(&state, NOW, "user", coins(10, "uusd"), 5),
        Err(ContractError::Std(terra_vegas::error::StdError::DivideByZero))
    );
    state.execute_change_max_betting_ratio(&"creator".to_string(), &vec![], 4).unwrap();
    assert_eq!(state.query_betting_limit(1001), Ok(BettingLimit { limit: 250 }));
}

#[test]
fn admin_changes() {
    let mut state = new_game(3);
    let creator = "creator".to_string();
    let user = "user".to_string();
    assert_eq!(
        state.execute_change_max_cashflow(&user, &vec![], 5),
        Err(ContractError::Unauthorized)
    );
    assert_eq!(
        state.execute_change_max_cashflow(&creator, &coins(1, "uusd"), 5),
        Err(ContractError::Payment(PaymentError::NonPayable))
    );
    assert_eq!(state.execute_change_max_cashflow(&creator, &vec![], 5), Ok(()));
    assert_eq!(state.config.max_cashflow, 5);
    assert_eq!(state.execute_change_max_number_of_bets(&creator, &vec![], 7), Ok(()));
    assert_eq!(state.config.max_number_of_bets, 7);
    assert_eq!(state.execute_change_win_tax(&creator, &vec![], "0.02"), Ok(()));
    assert_eq!(state.config.win_tax, Decimal::from_str("0.98").unwrap());
    assert_eq!(state.execute_change_advantage_value(&creator, &vec![], "0"), Ok(()));
    assert_eq!(state.config.win_coefficents[9], Decimal::from_str("35").unwrap());
    assert_eq!(
        state.execute_change_advantage_value(&creator, &vec![], "0.5"),
        Err(ContractError::AdvantageValueOutOfRange)
    );
    assert_eq!(state.config.win_coefficents[9], Decimal::from_str("35").unwrap());
    assert_eq!(state.execute_drain_game(&creator, &vec![], 700, &no_tax()), Ok(700));
    assert_eq!(state.execute_drain_game(&user, &vec![], 700, &no_tax()), Err(ContractError::Unauthorized));
    let (changed, action) = state
        .clone()
        .execute_change_round_duration(&creator, &vec![], NOW + 5, 99, &randomness(1), 0, &no_tax())
        .unwrap();
    assert_eq!(action, TreasuryAction::Nothing);
    assert_eq!(changed.timer.round_duration, 99);
    assert_eq!(changed.timer.current_round(), 1);
    assert_eq!(changed.outcomes_history, vec![(0, 6)]);
    assert_eq!(
        state.clone().execute_change_round_duration(&creator, &vec![], NOW + 5, 99, &randomness(0), 0, &no_tax()),
        Err(ContractError::NewRandomnessNotYetAvailable)
    );
}

#[test]
fn first_bet_is_counted_against_the_limit_too() {
    let state = new_game(0);
    let res = bet(&state, NOW, "user", coins(10, "uusd"), 5);
    assert_eq!(
        res,
        Err(ContractError::MaxAmountOfBetsThisRound { bets_this_round: 0, max_bets_per_round: 0 })
    );
    let state = new_game(1);
    let (state, action) = bet(&state, NOW, "user", coins(10, "uusd"), 5).unwrap();
    assert_eq!(action, TreasuryAction::Nothing);
    let res = bet(&state, NOW, "user", coins(10, "uusd"), 5);
    assert_eq!(
        res,
        Err(ContractError::MaxAmountOfBetsThisRound { bets_this_round: 1, max_bets_per_round: 1 })
    );
}

#[test]
fn change_of_duration_hands_on_the_message_of_its_settlement() {
    let state = new_game(3);
    let creator = "creator".to_string();
    let (state, action) = bet(&state, NOW, "user", coins(1000, "uusd"), 5).unwrap();
    assert_eq!(action, TreasuryAction::Nothing);
    // the bet on 5 wins 1186 against a total of 6; the balance holds 1000
    let (changed, action) = state
        .clone()
        .execute_change_round_duration(&creator, &vec![], NOW + 5, 60, &randomness(2), 1000, &no_tax())
        .unwrap();
    assert_eq!(action, TreasuryAction::RequestFunds { amount: 186 });
    assert_eq!(changed.timer.round_duration, 60);
    assert_eq!(changed.timer.current_round(), 1);
    assert_eq!(changed.outcomes_history, vec![(0, 6)]);
    assert_eq!(changed.rewards.total, 1186);
    // with a balance far above what is owed, the surplus is paid in
    let (_, action) = state
        .execute_change_round_duration(&creator, &vec![], NOW + 5, 60, &randomness(2), 20_000, &no_tax())
        .unwrap();
    assert_eq!(action, TreasuryAction::DepositFunds { amount: 18_814 });
}
