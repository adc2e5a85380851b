use terra_vegas::coin_supply::{
    PrivateSaleCoinSupply, PublicSaleCoinSupply, PublicSaleCoinSupplyData,
};
use terra_vegas::ico::{IcoStage, IcoTimer, IcoTimes};

#[test]
fn timer_before_the_start() {
    let timer = IcoTimer::new(100, 200);
    assert_eq!(timer.get_start_ime(), None);
    assert_eq!(timer.get_private_end(), 100);
    assert_eq!(timer.get_public_end(), 200);
    assert_eq!(timer.current_stage(0), IcoStage::NotStarted);
    assert_eq!(timer.current_stage(1_000_000), IcoStage::NotStarted);
}

#[test]
fn timer_runs_through_the_stages() {
    let mut timer = IcoTimer::new(100, 200);
    timer.start(1000);
    assert_eq!(timer.get_start_ime(), Some(1000));
    assert_eq!(timer.get_private_end(), 1100);
    assert_eq!(timer.get_public_end(), 1300);
    assert_eq!(timer.current_stage(999), IcoStage::NotStarted);
    assert_eq!(timer.current_stage(1000), IcoStage::PrivateSale);
    assert_eq!(timer.current_stage(1099), IcoStage::PrivateSale);
    assert_eq!(timer.current_stage(1100), IcoStage::PublicSale);
    assert_eq!(timer.current_stage(1299), IcoStage::PublicSale);
    assert_eq!(timer.current_stage(1300), IcoStage::Ended);
}

#[test]
fn timer_moves_to_the_next_stage_early() {
    let mut timer = IcoTimer::new(100, 200);
    timer.start(1000);
    timer.move_to_next_stage(1040);
    assert_eq!(timer.get_private_end(), 1040);
    assert_eq!(timer.get_public_end(), 1240);
    assert_eq!(timer.current_stage(1040), IcoStage::PublicSale);
    timer.move_to_next_stage(1050);
    assert_eq!(timer.get_private_end(), 0);
    assert_eq!(timer.get_public_end(), 0);
    assert_eq!(timer.current_stage(1050), IcoStage::Ended);
    timer.move_to_next_stage(1060);
    assert_eq!(timer.current_stage(1060), IcoStage::Ended);
}

#[test]
fn timer_end_ends_the_sale() {
    let mut timer = IcoTimer::new(100, 200);
    timer.start(1000);
    timer.end();
    assert_eq!(timer.get_start_ime(), Some(1000));
    assert_eq!(timer.current_stage(1001), IcoStage::Ended);
}

#[test]
fn timer_reports_its_times() {
    let mut timer = IcoTimer::new(100, 200);
    assert_eq!(
        timer.query_ico_times(),
        IcoTimes { start_time: None, private_end: 100, public_end: 200 }
    );
    timer.start(1000);
    assert_eq!(
        timer.query_ico_times(),
        IcoTimes { start_time: Some(1000), private_end: 1100, public_end: 1300 }
    );
}

#[test]
fn price_change() {
    let mut coin_supply = PublicSaleCoinSupply::new(10000, 1, 5);

    // ((1 + 4 * 0.1) + (1))/2 = 1.2
    assert_eq!(coin_supply.price_for_amount(1000), Some(1200));

    coin_supply.record_sale(1000);
    // ((1 + 4 * 0.1) + (1 + 4 * 0.2))/2 = 1.6
    assert_eq!(coin_supply.price_for_amount(1000), Some(1600));

    coin_supply.record_sale(1000);
    // ((1 + 4 * 0.2) + (1 + 4 * 0.201))/2 = 1.802
    assert_eq!(coin_supply.price_for_amount(10), Some(18));
    // ((1 + 4 * 0.1) + (1 + 4 * 0.2001))/2 = 1.8002
    assert_eq!(coin_supply.price_for_amount(1), Some(1));
}

#[test]
fn public_price_rises_with_the_coins_sold() {
    let mut supply = PublicSaleCoinSupply::new(10000, 1, 5);
    assert_eq!(supply.price(), Some(1));
    assert_eq!(supply.price_at(0), Some(1_000_000));
    assert_eq!(supply.price_at(2500), Some(2_000_000));
    assert_eq!(supply.price_at(10000), Some(5_000_000));
    supply.record_sale(5000);
    assert_eq!(supply.price(), Some(3));
    assert_eq!(supply.remains(), Some(5000));
    let mut private = PrivateSaleCoinSupply::new(1000, 2);
    private.record_sale(400);
    supply.inherit_private(&private);
    assert_eq!(supply.inherited, 600);
    assert_eq!(supply.remains(), Some(5600));
    assert_eq!(supply.price_at(5300), Some(3_000_000));
}

#[test]
fn prices_that_cannot_be_computed() {
    let falling = PublicSaleCoinSupply::new(10000, 5, 1);
    assert_eq!(falling.price(), None);
    let empty = PublicSaleCoinSupply::new(0, 1, 5);
    assert_eq!(empty.price(), None);
    assert_eq!(empty.price_for_amount(1), None);
    let huge = PublicSaleCoinSupply::new(10, u128::MAX, u128::MAX);
    assert_eq!(huge.price(), None);
    let mut sold_out = PublicSaleCoinSupply::new(10, 1, 5);
    sold_out.record_sale(11);
    assert_eq!(sold_out.remains(), None);
    let supply = PublicSaleCoinSupply::from_data(PublicSaleCoinSupplyData {
        total_amount: 10,
        coins_sold: u128::MAX,
        coin_price_start: 1,
        coin_price_end: 5,
    });
    assert_eq!(supply.price_for_amount(1), None);
}

#[test]
fn private_price_is_fixed() {
    let mut supply = PrivateSaleCoinSupply::new(1000, 3);
    assert_eq!(supply.price(), 3);
    assert_eq!(supply.price_for_amount(7), Some(21));
    assert_eq!(supply.price_for_amount(u128::MAX), None);
    assert_eq!(supply.remains(), Some(1000));
    supply.record_sale(1000);
    assert_eq!(supply.remains(), Some(0));
    supply.record_sale(1);
    assert_eq!(supply.remains(), None);
}
