use trading_sim::bot::traits::Traits;
use trading_sim::bot::Bot;
use trading_sim::config::Config;
use trading_sim::price_data::PriceData;
use trading_sim::simulation::{
    breed, new_population, partition, run_chunk, sort_by_fitness, BreedError,
};

fn ranges() -> trading_sim::config::Traits {
    trading_sim::config::Traits {
        number_of_averaging_periods: trading_sim::config::NumberOfAveragingPeriods {
            min: 1,
            max: 10,
        },
        minimum_buy_momentum: trading_sim::config::MinimumBuyMomentum {
            min: 0,
            max: 2_000_000,
        },
        maximum_buy_momentum: trading_sim::config::MaximumBuyMomentum {
            min: 1_000_000,
            max: 5_000_000,
        },
        trailing_stop_loss: trading_sim::config::TrailingStopLoss {
            min: 500_000,
            max: 5_000_000,
        },
        stop_loss: trading_sim::config::StopLoss {
            min: 500_000,
            max: 5_000_000,
        },
        minimum_holding_periods: trading_sim::config::MinimumHoldingPeriods { min: 1, max: 5 },
        maximum_holding_periods: trading_sim::config::MaximumHoldingPeriods { min: 10, max: 50 },
        percent_purchase: trading_sim::config::PercentPurchase {
            min: 10_000_000,
            max: 90_000_000,
        },
        target_sell_percentage: trading_sim::config::TargetSellPercentage {
            min: 1_000_000,
            max: 10_000_000,
        },
    }
}

fn base_config() -> Config {
    Config {
        traits: ranges(),
        number_of_bots: 8,
        number_of_generations: 1,
        starting_money: 1_000_000_000,
        minimum_purchase_size: 1_000_000,
        transaction_fee_as_percentage: 7_000,
        number_of_threads: 2,
        mutation_chance: 0,
        hamming: 10_000_000,
    }
}

fn parent_a_traits() -> Traits {
    Traits {
        number_of_averaging_periods: 1,
        minimum_buy_momentum: 100_000,
        maximum_buy_momentum: 2_000_000,
        trailing_stop_loss: 1_000_000,
        stop_loss: 1_500_000,
        minimum_holding_periods: 1,
        maximum_holding_periods: 30,
        percent_purchase: 90_000_000,
        target_sell_percentage: 5_000_000,
    }
}

fn parent_b_traits() -> Traits {
    Traits {
        number_of_averaging_periods: 4,
        minimum_buy_momentum: 700_000,
        maximum_buy_momentum: 3_000_000,
        trailing_stop_loss: 2_000_000,
        stop_loss: 900_000,
        minimum_holding_periods: 2,
        maximum_holding_periods: 20,
        percent_purchase: 50_000_000,
        target_sell_percentage: 8_000_000,
    }
}

fn scored_bot(id: u64, traits: Traits, fitness: i64) -> Bot {
    Bot {
        id,
        traits,
        money: fitness,
        current_holdings: Vec::new(),
        sold_holdings: Vec::new(),
        fitness,
        start_time: None,
        end_time: None,
    }
}

// With two distinct-id parents of positive fitness, breeding fills the
// whole next generation; with the mutation chance at zero every child
// field comes from one of the two parents.
#[test]
fn test_breed_full_generation_from_distinct_parents() {
    let config = base_config();
    let a = parent_a_traits();
    let b = parent_b_traits();
    let bots = vec![
        scored_bot(1, a, 500_000_000),
        scored_bot(2, b, 300_000_000),
        scored_bot(3, a, 0),
    ];

    let next = breed(&bots, &config).unwrap();
    assert_eq!(next.len(), 8);
    for (k, child) in next.iter().enumerate() {
        assert_eq!(child.id, k as u64);
        assert_eq!(child.money, 1_000_000_000);
        assert_eq!(child.fitness, 0);
        assert!(child.current_holdings.is_empty());
        assert!(child.sold_holdings.is_empty());
        assert_eq!(child.start_time, None);
        assert_eq!(child.end_time, None);
        let t = child.traits;
        assert!(
            t.number_of_averaging_periods == a.number_of_averaging_periods
                || t.number_of_averaging_periods == b.number_of_averaging_periods
        );
        assert!(
            t.minimum_buy_momentum == a.minimum_buy_momentum
                || t.minimum_buy_momentum == b.minimum_buy_momentum
        );
        assert!(
            t.maximum_buy_momentum == a.maximum_buy_momentum
                || t.maximum_buy_momentum == b.maximum_buy_momentum
        );
        assert!(
            t.trailing_stop_loss == a.trailing_stop_loss
                || t.trailing_stop_loss == b.trailing_stop_loss
        );
        assert!(t.stop_loss == a.stop_loss || t.stop_loss == b.stop_loss);
        assert!(
            t.minimum_holding_periods == a.minimum_holding_periods
                || t.minimum_holding_periods == b.minimum_holding_periods
        );
        assert!(
            t.maximum_holding_periods == a.maximum_holding_periods
                || t.maximum_holding_periods == b.maximum_holding_periods
        );
        assert!(t.percent_purchase == a.percent_purchase || t.percent_purchase == b.percent_purchase);
        assert!(
            t.target_sell_percentage == a.target_sell_percentage
                || t.target_sell_percentage == b.target_sell_percentage
        );
    }
}

// With the mutation chance at one and every range collapsed to a
// point, each child's genome is exactly the range endpoints.
#[test]
fn test_mutation_resamples_from_ranges() {
    let mut config = base_config();
    config.mutation_chance = 1_000_000;
    config.traits = trading_sim::config::Traits {
        number_of_averaging_periods: trading_sim::config::NumberOfAveragingPeriods {
            min: 3,
            max: 3,
        },
        minimum_buy_momentum: trading_sim::config::MinimumBuyMomentum {
            min: 400_000,
            max: 400_000,
        },
        maximum_buy_momentum: trading_sim::config::MaximumBuyMomentum {
            min: 2_500_000,
            max: 2_500_000,
        },
        trailing_stop_loss: trading_sim::config::TrailingStopLoss {
            min: 1_100_000,
            max: 1_100_000,
        },
        stop_loss: trading_sim::config::StopLoss {
            min: 1_200_000,
            max: 1_200_000,
        },
        minimum_holding_periods: trading_sim::config::MinimumHoldingPeriods { min: 2, max: 2 },
        maximum_holding_periods: trading_sim::config::MaximumHoldingPeriods { min: 25, max: 25 },
        percent_purchase: trading_sim::config::PercentPurchase {
            min: 40_000_000,
            max: 40_000_000,
        },
        target_sell_percentage: trading_sim::config::TargetSellPercentage {
            min: 6_000_000,
            max: 6_000_000,
        },
    };
    let bots = vec![
        scored_bot(1, parent_a_traits(), 500_000_000),
        scored_bot(2, parent_b_traits(), 300_000_000),
    ];

    let next = breed(&bots, &config).unwrap();
    assert_eq!(next.len(), 8);
    for child in &next {
        let t = child.traits;
        assert_eq!(t.number_of_averaging_periods, 3);
        assert_eq!(t.minimum_buy_momentum, 400_000);
        assert_eq!(t.maximum_buy_momentum, 2_500_000);
        assert_eq!(t.trailing_stop_loss, 1_100_000);
        assert_eq!(t.stop_loss, 1_200_000);
        assert_eq!(t.minimum_holding_periods, 2);
        assert_eq!(t.maximum_holding_periods, 25);
        assert_eq!(t.percent_purchase, 40_000_000);
        assert_eq!(t.target_sell_percentage, 6_000_000);
    }
}

// No bot with positive fitness: the pool is empty and the generation
// is fatal.
#[test]
fn test_breed_empty_pool() {
    let config = base_config();
    let bots = vec![
        scored_bot(1, parent_a_traits(), 0),
        scored_bot(2, parent_b_traits(), -5_000_000),
    ];
    assert_eq!(breed(&bots, &config).unwrap_err(), BreedError::EmptyBreedingPool);
}

// Positive fitness concentrated on a single id: self-breeding cannot
// be avoided.
#[test]
fn test_breed_no_distinct_parents() {
    let config = base_config();
    let bots = vec![
        scored_bot(7, parent_a_traits(), 500_000_000),
        scored_bot(7, parent_b_traits(), 300_000_000),
        scored_bot(9, parent_b_traits(), -100_000_000),
    ];
    assert_eq!(breed(&bots, &config).unwrap_err(), BreedError::NoDistinctParents);
}

// Sorting is descending by fitness and keeps every bot.
#[test]
fn test_sort_by_fitness_descending() {
    let mut bots = vec![
        scored_bot(0, parent_a_traits(), 5),
        scored_bot(1, parent_a_traits(), -3),
        scored_bot(2, parent_a_traits(), 10),
        scored_bot(3, parent_a_traits(), 10),
        scored_bot(4, parent_a_traits(), 0),
    ];
    sort_by_fitness(&mut bots);
    let fitnesses: Vec<i64> = bots.iter().map(|b| b.fitness).collect();
    assert_eq!(fitnesses, vec![10, 10, 5, 0, -3]);
    let mut ids: Vec<u64> = bots.iter().map(|b| b.id).collect();
    ids.sort();
    assert_eq!(ids, vec![0, 1, 2, 3, 4]);
}

// Partitioning makes contiguous equal chunks and drops the remainder.
#[test]
fn test_partition_contiguous_chunks() {
    let bots: Vec<Bot> = (0..7).map(|i| scored_bot(i, parent_a_traits(), 0)).collect();
    let chunks = partition(bots, 3);
    assert_eq!(chunks.len(), 3);
    let ids: Vec<Vec<u64>> = chunks
        .iter()
        .map(|c| c.iter().map(|b| b.id).collect())
        .collect();
    assert_eq!(ids, vec![vec![0, 1], vec![2, 3], vec![4, 5]]);
}

// One worker's chunk run gives each bot exactly the same history as
// running it alone, period by period.
#[test]
fn test_run_chunk_matches_single_bot_run() {
    let config = base_config();
    let traits = Traits {
        number_of_averaging_periods: 1,
        minimum_buy_momentum: 0,
        maximum_buy_momentum: 2_000_000,
        trailing_stop_loss: 1_000_000,
        stop_loss: 1_000_000,
        minimum_holding_periods: 1,
        maximum_holding_periods: 30,
        percent_purchase: 90_000_000,
        target_sell_percentage: 5_000_000,
    };
    let series: Vec<PriceData> = vec![
        PriceData {
            time: 100,
            low: 100_000_000,
            high: 103_000_000,
            open: 100_000_000,
            close: 102_000_000,
            volume: 1_000_000,
        },
        PriceData {
            time: 200,
            low: 101_000_000,
            high: 104_000_000,
            open: 102_000_000,
            close: 103_000_000,
            volume: 1_000_000,
        },
        PriceData {
            time: 300,
            low: 102_000_000,
            high: 105_000_000,
            open: 103_000_000,
            close: 104_000_000,
            volume: 1_000_000,
        },
    ];

    let mut alone = scored_bot(0, traits, 0);
    alone.money = 1_000_000_000;
    for p in 0..3 {
        alone.run_period(&series, p, &config);
    }

    let mut chunk = vec![scored_bot(0, traits, 0), scored_bot(1, traits, 0)];
    chunk[0].money = 1_000_000_000;
    chunk[1].money = 1_000_000_000;
    run_chunk(&mut chunk, &series, &config);

    assert_eq!(chunk.len(), 2);
    for bot in &chunk {
        assert_eq!(bot.money, alone.money);
        assert_eq!(bot.fitness, alone.fitness);
        assert_eq!(bot.current_holdings.len(), alone.current_holdings.len());
        assert_eq!(bot.sold_holdings.len(), alone.sold_holdings.len());
        assert_eq!(bot.start_time, alone.start_time);
        assert_eq!(bot.end_time, alone.end_time);
    }
}

// A fresh population has sequential ids, the starting cash, and every
// genome field inside its configured range.
#[test]
fn test_new_population_sampled_within_ranges() {
    let config = base_config();
    let bots = new_population(&config);
    assert_eq!(bots.len(), 8);
    for (k, bot) in bots.iter().enumerate() {
        assert_eq!(bot.id, k as u64);
        assert_eq!(bot.money, 1_000_000_000);
        assert_eq!(bot.fitness, 0);
        assert!(bot.current_holdings.is_empty());
        assert!(bot.sold_holdings.is_empty());
        let t = bot.traits;
        let r = config.traits;
        assert!(
            r.number_of_averaging_periods.min <= t.number_of_averaging_periods
                && t.number_of_averaging_periods < r.number_of_averaging_periods.max
        );
        assert!(
            r.minimum_buy_momentum.min <= t.minimum_buy_momentum
                && t.minimum_buy_momentum < r.minimum_buy_momentum.max
        );
        assert!(
            r.maximum_buy_momentum.min <= t.maximum_buy_momentum
                && t.maximum_buy_momentum < r.maximum_buy_momentum.max
        );
        assert!(
            r.trailing_stop_loss.min <= t.trailing_stop_loss
                && t.trailing_stop_loss < r.trailing_stop_loss.max
        );
        assert!(r.stop_loss.min <= t.stop_loss && t.stop_loss < r.stop_loss.max);
        assert!(
            r.minimum_holding_periods.min <= t.minimum_holding_periods
                && t.minimum_holding_periods < r.minimum_holding_periods.max
        );
        assert!(
            r.maximum_holding_periods.min <= t.maximum_holding_periods
                && t.maximum_holding_periods < r.maximum_holding_periods.max
        );
        assert!(
            r.percent_purchase.min <= t.percent_purchase
                && t.percent_purchase < r.percent_purchase.max
        );
        assert!(
            r.target_sell_percentage.min <= t.target_sell_percentage
                && t.target_sell_percentage < r.target_sell_percentage.max
        );
    }
}
