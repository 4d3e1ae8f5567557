use trading_sim::asset::Asset;
use trading_sim::bot::holdings::SellReason;
use trading_sim::bot::traits::Traits;
use trading_sim::bot::Bot;
use trading_sim::config::Config;
use trading_sim::price_data::PriceData;

// Prices and money are in millionths of a unit, purchase amounts in
// ten-thousandths, percentages in millionths of a percent.

fn money(ticks: i64) -> f64 {
    ticks as f64 / 1_000_000.0
}

fn lots(ticks: i64) -> f64 {
    ticks as f64 / 10_000.0
}

fn pct(ticks: i64) -> f64 {
    ticks as f64 / 1_000_000.0
}

fn rel_eq(actual: f64, expected: f64, max_relative: f64) -> bool {
    let diff = (actual - expected).abs();
    let largest = actual.abs().max(expected.abs());
    diff <= largest * max_relative
}

fn generate_default_traits() -> Traits {
    Traits {
        number_of_averaging_periods: 1,
        minimum_buy_momentum: 1_000_000,
        maximum_buy_momentum: 2_000_000,
        trailing_stop_loss: 1_000_000,
        stop_loss: 1_000_000,
        minimum_holding_periods: 1,
        maximum_holding_periods: 30,
        percent_purchase: 90_000_000,
        target_sell_percentage: 5_000_000,
    }
}

fn generate_default_bot(traits: Traits) -> Bot {
    Bot {
        id: 0,
        traits,
        money: 1_000_000_000,
        current_holdings: Vec::new(),
        sold_holdings: Vec::new(),
        fitness: 0,
        start_time: None,
        end_time: None,
    }
}

fn generate_price_history() -> Vec<PriceData> {
    let price_point1 = PriceData {
        time: 1515034800,
        low: 100_000_000,
        high: 110_000_000,
        open: 100_000_000,
        close: 102_000_000,
        volume: 100_000_000,
    };
    let price_point2 = PriceData {
        time: 1515033900,
        low: 102_000_000,
        high: 105_000_000,
        open: 102_000_000,
        close: 105_000_000,
        volume: 100_000_000,
    };
    let price_point3 = PriceData {
        time: 1515033000,
        low: 100_000_000,
        high: 110_000_000,
        open: 105_000_000,
        close: 110_000_000,
        volume: 100_000_000,
    };
    vec![price_point1, price_point2, price_point3]
}

fn generate_default_config() -> Config {
    let config = Config {
        traits: trading_sim::config::Traits {
            number_of_averaging_periods: trading_sim::config::NumberOfAveragingPeriods {
                min: 1,
                max: 10,
            },
            minimum_buy_momentum: trading_sim::config::MinimumBuyMomentum {
                min: 0,
                max: 2_000_000,
            },
            maximum_buy_momentum: trading_sim::config::MaximumBuyMomentum {
                min: 1_000_000,
                max: 5_000_000,
            },
            trailing_stop_loss: trading_sim::config::TrailingStopLoss {
                min: 500_000,
                max: 5_000_000,
            },
            stop_loss: trading_sim::config::StopLoss {
                min: 500_000,
                max: 5_000_000,
            },
            minimum_holding_periods: trading_sim::config::MinimumHoldingPeriods { min: 1, max: 5 },
            maximum_holding_periods: trading_sim::config::MaximumHoldingPeriods {
                min: 10,
                max: 50,
            },
            percent_purchase: trading_sim::config::PercentPurchase {
                min: 10_000_000,
                max: 90_000_000,
            },
            target_sell_percentage: trading_sim::config::TargetSellPercentage {
                min: 1_000_000,
                max: 10_000_000,
            },
        },
        number_of_bots: 10,
        number_of_generations: 1,
        starting_money: 1_000_000_000,
        minimum_purchase_size: 1_000_000,
        transaction_fee_as_percentage: 7_000,
        number_of_threads: 2,
        mutation_chance: 100_000,
        hamming: 10_000_000,
    };
    assert!(config.validate_config().is_empty());
    config
}

#[test]
fn test_bot_simple_cycle() {
    let traits = generate_default_traits();
    let mut bot = generate_default_bot(traits);
    let price_history = generate_price_history();
    let config = generate_default_config();

    bot.run_period(&price_history, 0, &config);

    assert_eq!(bot.current_holdings.len(), 0);

    bot.run_period(&price_history, 1, &config);
    assert_eq!(bot.current_holdings.len(), 1);

    let first_holding = bot.current_holdings.get(0).unwrap();
    assert_eq!(first_holding.asset, Asset::ETH);
    assert!(rel_eq(lots(first_holding.amount), 8.8235, 0.001));
    assert!(rel_eq(money(first_holding.money_spent), 906.29, 0.001));
    assert!(rel_eq(money(first_holding.purchase_price), 102.0, 0.001));
    assert!(rel_eq(money(first_holding.stop_loss), 100.98, 0.001));
    assert!(rel_eq(money(first_holding.trailing_stop_loss), 103.95, 0.001));
    assert_eq!(first_holding.periods_held, 1);
    assert!(rel_eq(money(first_holding.buy_fee), 6.29, 0.01));

    bot.run_period(&price_history, 2, &config);
    assert_eq!(bot.sold_holdings.len(), 1);
    assert_eq!(bot.current_holdings.len(), 0);

    let first_sold_holding = bot.sold_holdings.get(0).unwrap();
    assert_eq!(first_sold_holding.asset, Asset::ETH);
    assert!(rel_eq(lots(first_sold_holding.amount), 8.8235, 0.001));
    assert!(rel_eq(money(first_sold_holding.money_spent), 906.29, 0.001));
    assert!(rel_eq(money(first_sold_holding.purchase_price), 102.0, 0.001));
    assert!(rel_eq(money(first_sold_holding.stop_loss), 100.98, 0.001));
    assert!(rel_eq(money(first_sold_holding.trailing_stop_loss), 108.9, 0.001));
    assert_eq!(first_sold_holding.periods_held, 2);
    assert!(rel_eq(money(first_sold_holding.buy_fee), 6.3, 0.001));
    assert!(rel_eq(money(first_sold_holding.sell_fee), 6.79, 0.001));
    assert!(rel_eq(money(first_sold_holding.money_from_sell), 963.79, 0.001));
    assert!(rel_eq(money(first_sold_holding.amount_gained), 57.5, 0.001));
    assert!(rel_eq(pct(first_sold_holding.percent_gained), 6.34, 0.001));
    assert_eq!(first_sold_holding.sell_time, 1515033000);
    assert_eq!(first_sold_holding.purchase_time, 1515033900);
    assert_eq!(first_sold_holding.win, true);
    assert_eq!(first_sold_holding.sell_reason, SellReason::Forced);

    assert!(rel_eq(money(bot.money), 1057.5, 0.001));
}

#[test]
fn test_bot_sell_stop_loss() {
    let mut traits = generate_default_traits();
    traits.trailing_stop_loss = 5_000_000;

    let mut bot = generate_default_bot(traits);
    let mut price_history = generate_price_history();
    let config = generate_default_config();

    let price_point = price_history.get_mut(2).unwrap();
    price_point.close = 100_000_000;
    price_point.high = 105_000_000;

    let fourth_price_point = PriceData {
        time: 1515033000,
        low: 100_000_000,
        high: 110_000_000,
        open: 105_000_000,
        close: 110_000_000,
        volume: 100_000_000,
    };
    price_history.push(fourth_price_point);

    bot.run_period(&price_history, 0, &config);
    bot.run_period(&price_history, 1, &config);
    bot.run_period(&price_history, 2, &config);

    assert_eq!(bot.sold_holdings.len(), 1);
    assert_eq!(bot.current_holdings.len(), 0);

    let first_sold_holding = bot.sold_holdings.get(0).unwrap();
    assert_eq!(first_sold_holding.asset, Asset::ETH);
    assert!(rel_eq(lots(first_sold_holding.amount), 8.8235, 0.001));
    assert!(rel_eq(money(first_sold_holding.money_spent), 906.29, 0.001));
    assert!(rel_eq(money(first_sold_holding.purchase_price), 102.0, 0.001));
    assert!(rel_eq(money(first_sold_holding.stop_loss), 100.98, 0.001));
    assert!(rel_eq(money(first_sold_holding.trailing_stop_loss), 99.75, 0.001));
    assert_eq!(first_sold_holding.periods_held, 2);
    assert!(rel_eq(money(first_sold_holding.buy_fee), 6.3, 0.001));
    assert!(rel_eq(money(first_sold_holding.sell_fee), 6.176, 0.001));
    assert!(rel_eq(money(first_sold_holding.money_from_sell), 876.19, 0.001));
    assert!(rel_eq(money(first_sold_holding.amount_gained), -30.116, 0.001));
    assert!(rel_eq(pct(first_sold_holding.percent_gained), -3.323, 0.001));
    assert_eq!(first_sold_holding.win, false);
    assert_eq!(first_sold_holding.sell_reason, SellReason::StopLoss);

    assert!(rel_eq(money(bot.money), 969.9, 0.001));
}

#[test]
fn test_bot_sell_trailing_stop_loss() {
    let traits = generate_default_traits();
    let mut bot = generate_default_bot(traits);
    let mut price_history = generate_price_history();
    let config = generate_default_config();

    let price_point = price_history.get_mut(2).unwrap();
    price_point.close = 103_000_000;
    price_point.high = 105_000_000;

    let fourth_price_point = PriceData {
        time: 1515033000,
        low: 100_000_000,
        high: 110_000_000,
        open: 105_000_000,
        close: 110_000_000,
        volume: 100_000_000,
    };
    price_history.push(fourth_price_point);

    bot.run_period(&price_history, 0, &config);
    bot.run_period(&price_history, 1, &config);
    bot.run_period(&price_history, 2, &config);

    assert_eq!(bot.sold_holdings.len(), 1);
    assert_eq!(bot.current_holdings.len(), 0);

    let first_sold_holding = bot.sold_holdings.get(0).unwrap();
    assert_eq!(first_sold_holding.asset, Asset::ETH);
    assert!(rel_eq(lots(first_sold_holding.amount), 8.8235, 0.001));
    assert!(rel_eq(money(first_sold_holding.money_spent), 906.29, 0.001));
    assert!(rel_eq(money(first_sold_holding.purchase_price), 102.0, 0.001));
    assert!(rel_eq(money(first_sold_holding.stop_loss), 100.98, 0.001));
    assert!(rel_eq(money(first_sold_holding.trailing_stop_loss), 103.95, 0.001));
    assert_eq!(first_sold_holding.periods_held, 2);
    assert!(rel_eq(money(first_sold_holding.buy_fee), 6.3, 0.001));
    assert!(rel_eq(money(first_sold_holding.sell_fee), 6.362, 0.001));
    assert!(rel_eq(money(first_sold_holding.money_from_sell), 902.613, 0.001));
    assert!(rel_eq(money(first_sold_holding.amount_gained), -3.838, 0.001));
    assert!(rel_eq(pct(first_sold_holding.percent_gained), -0.4235, 0.001));
    assert_eq!(first_sold_holding.win, false);
    assert_eq!(first_sold_holding.sell_reason, SellReason::TrailingStopLoss);

    assert!(rel_eq(money(bot.money), 996.161, 0.001));
}

#[test]
fn test_bot_sell_max_periods_held() {
    let mut traits = generate_default_traits();

    traits.maximum_holding_periods = 3;

    let mut bot = generate_default_bot(traits);
    let mut price_history = generate_price_history();
    let config = generate_default_config();

    let price_point = price_history.get_mut(2).unwrap();
    price_point.close = 105_000_000;
    price_point.high = 105_000_000;

    let fourth_price_point = PriceData {
        time: 1515033000,
        low: 100_000_000,
        high: 106_000_000,
        open: 105_000_000,
        close: 105_000_000,
        volume: 100_000_000,
    };
    price_history.push(fourth_price_point);
    let fifth_price_point = PriceData {
        time: 1515039000,
        low: 100_000_000,
        high: 106_000_000,
        open: 105_000_000,
        close: 105_000_000,
        volume: 100_000_000,
    };
    price_history.push(fifth_price_point);

    bot.run_period(&price_history, 0, &config);
    bot.run_period(&price_history, 1, &config);
    bot.run_period(&price_history, 2, &config);
    bot.run_period(&price_history, 3, &config);

    assert_eq!(bot.sold_holdings.len(), 1);
    assert_eq!(bot.current_holdings.len(), 0);

    let first_sold_holding = bot.sold_holdings.get(0).unwrap();
    assert_eq!(first_sold_holding.asset, Asset::ETH);
    assert!(rel_eq(lots(first_sold_holding.amount), 8.8235, 0.001));
    assert!(rel_eq(money(first_sold_holding.money_spent), 906.29, 0.001));
    assert!(rel_eq(money(first_sold_holding.purchase_price), 102.0, 0.001));
    assert!(rel_eq(money(first_sold_holding.stop_loss), 100.98, 0.001));
    assert!(rel_eq(money(first_sold_holding.trailing_stop_loss), 103.95, 0.001));
    assert_eq!(first_sold_holding.periods_held, 3);
    assert!(rel_eq(money(first_sold_holding.buy_fee), 6.3, 0.001));
    assert!(rel_eq(money(first_sold_holding.sell_fee), 6.485, 0.001));
    assert!(rel_eq(money(first_sold_holding.money_from_sell), 919.982, 0.001));
    assert!(rel_eq(money(first_sold_holding.amount_gained), 13.685, 0.001));
    assert!(rel_eq(pct(first_sold_holding.percent_gained), 1.510, 0.001));
    assert_eq!(first_sold_holding.win, true);
    assert_eq!(first_sold_holding.sell_reason, SellReason::MaxPeriodsHeld);

    assert!(rel_eq(money(bot.money), 1013.6851, 0.001));
}

#[test]
fn test_bot_target_sell_percent() {
    let traits = generate_default_traits();
    let mut bot = generate_default_bot(traits);
    let mut price_history = generate_price_history();
    let config = generate_default_config();

    let price_point = price_history.get_mut(2).unwrap();
    price_point.close = 105_000_000;

    let fourth_price_point = PriceData {
        time: 1515033000,
        low: 100_000_000,
        high: 110_000_000,
        open: 105_000_000,
        close: 110_000_000,
        volume: 100_000_000,
    };
    price_history.push(fourth_price_point);

    bot.run_period(&price_history, 0, &config);
    bot.run_period(&price_history, 1, &config);
    bot.run_period(&price_history, 2, &config);

    assert_eq!(bot.sold_holdings.len(), 1);
    assert_eq!(bot.current_holdings.len(), 0);

    let first_sold_holding = bot.sold_holdings.get(0).unwrap();
    assert_eq!(first_sold_holding.asset, Asset::ETH);
    assert!(rel_eq(lots(first_sold_holding.amount), 8.8235, 0.001));
    assert!(rel_eq(money(first_sold_holding.money_spent), 906.29, 0.001));
    assert!(rel_eq(money(first_sold_holding.purchase_price), 102.0, 0.001));
    assert!(rel_eq(money(first_sold_holding.stop_loss), 100.98, 0.001));
    assert!(rel_eq(money(first_sold_holding.trailing_stop_loss), 103.95, 0.001));
    assert!(rel_eq(money(first_sold_holding.targeted_sell_price), 107.1, 0.001));
    assert_eq!(first_sold_holding.periods_held, 2);
    assert!(rel_eq(money(first_sold_holding.buy_fee), 6.3, 0.001));
    assert!(rel_eq(money(first_sold_holding.sell_fee), 6.6149, 0.001));
    assert!(rel_eq(money(first_sold_holding.money_from_sell), 938.3819, 0.001));
    assert!(rel_eq(money(first_sold_holding.amount_gained), 32.084, 0.001));
    assert!(rel_eq(pct(first_sold_holding.percent_gained), 3.540, 0.001));
    assert_eq!(first_sold_holding.win, true);
    assert_eq!(first_sold_holding.sell_reason, SellReason::TargetedSellPrice);
    assert!(rel_eq(money(bot.money), 1032.084, 0.001));
}

#[test]
fn test_hamming_no_difference() {
    let traits = generate_default_traits();
    let bot_one = generate_default_bot(traits);
    let bot_two = generate_default_bot(traits);

    let hamming_value = bot_one.hamming(&bot_two);
    assert!(rel_eq(pct(hamming_value), 0.0, 0.0001));
}

#[test]
fn test_hamming_difference() {
    let traits = generate_default_traits();
    let bot_one = generate_default_bot(traits);
    let mut bot_two = generate_default_bot(traits);

    bot_two.traits.maximum_buy_momentum = 4_000_000;
    bot_two.traits.number_of_averaging_periods = 10;

    let hamming_value = bot_one.hamming(&bot_two);
    assert!(rel_eq(pct(hamming_value), 25.589, 0.0001));
}
