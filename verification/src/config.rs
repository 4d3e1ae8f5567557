//! The simulation configuration and its validation.
//!
//! Scalar conventions: money quantities in `MONEY_SCALE` ticks,
//! percentages in `PCT_SCALE` ticks per percent, fractions (the fee and
//! the mutation chance) in `FRAC_SCALE` ticks per whole.

use vstd::prelude::*;
use vstd::string::StringExecFns;

verus! {

/// The [min, max) range a genome's averaging-period count is drawn from.
#[derive(Copy, Clone, PartialEq, Eq, Structural, Debug)]
pub struct NumberOfAveragingPeriods {
    pub min: u64,
    pub max: u64,
}

/// Range for the lower momentum gate, in `PCT_SCALE` ticks.
#[derive(Copy, Clone, PartialEq, Eq, Structural, Debug)]
pub struct MinimumBuyMomentum {
    pub min: i64,
    pub max: i64,
}

/// Range for the upper momentum gate, in `PCT_SCALE` ticks.
#[derive(Copy, Clone, PartialEq, Eq, Structural, Debug)]
pub struct MaximumBuyMomentum {
    pub min: i64,
    pub max: i64,
}

/// Range for the trailing stop-loss distance, in `PCT_SCALE` ticks.
#[derive(Copy, Clone, PartialEq, Eq, Structural, Debug)]
pub struct TrailingStopLoss {
    pub min: i64,
    pub max: i64,
}

/// Range for the stop-loss distance, in `PCT_SCALE` ticks.
#[derive(Copy, Clone, PartialEq, Eq, Structural, Debug)]
pub struct StopLoss {
    pub min: i64,
    pub max: i64,
}

/// Range for the minimum holding time, in periods.
#[derive(Copy, Clone, PartialEq, Eq, Structural, Debug)]
pub struct MinimumHoldingPeriods {
    pub min: u64,
    pub max: u64,
}

/// Range for the maximum holding time, in periods.
#[derive(Copy, Clone, PartialEq, Eq, Structural, Debug)]
pub struct MaximumHoldingPeriods {
    pub min: u64,
    pub max: u64,
}

/// Range for the share of cash spent per purchase, in `PCT_SCALE` ticks.
#[derive(Copy, Clone, PartialEq, Eq, Structural, Debug)]
pub struct PercentPurchase {
    pub min: i64,
    pub max: i64,
}

/// Range for the take-profit distance, in `PCT_SCALE` ticks.
#[derive(Copy, Clone, PartialEq, Eq, Structural, Debug)]
pub struct TargetSellPercentage {
    pub min: i64,
    pub max: i64,
}

/// The per-field sampling ranges genomes are drawn from.
#[derive(Copy, Clone, PartialEq, Eq, Structural, Debug)]
pub struct Traits {
    pub number_of_averaging_periods: NumberOfAveragingPeriods,
    pub minimum_buy_momentum: MinimumBuyMomentum,
    pub maximum_buy_momentum: MaximumBuyMomentum,
    pub trailing_stop_loss: TrailingStopLoss,
    pub stop_loss: StopLoss,
    pub minimum_holding_periods: MinimumHoldingPeriods,
    pub maximum_holding_periods: MaximumHoldingPeriods,
    pub percent_purchase: PercentPurchase,
    pub target_sell_percentage: TargetSellPercentage,
}

/// The validated document a whole run is parameterised by.
#[derive(Copy, Clone, PartialEq, Eq, Structural, Debug)]
pub struct Config {
    pub traits: Traits,
    pub number_of_bots: u64,
    pub number_of_generations: u64,
    pub starting_money: i64,
    pub minimum_purchase_size: i64,
    pub transaction_fee_as_percentage: i64,
    pub number_of_threads: u64,
    pub mutation_chance: i64,
    pub hamming: i64,
}

/// One field-level complaint about a configuration document.
#[derive(Clone, Debug)]
pub struct ConfigError {
    path: String,
    message: String,
}

impl View for ConfigError {
    type V = (Seq<char>, Seq<char>);

    /// The pair (message, path).
    closed spec fn view(&self) -> (Seq<char>, Seq<char>) {
        (self.message@, self.path@)
    }
}

impl ConfigError {
    pub fn new(message: String, path: String) -> (r: ConfigError)
        ensures
            r@ == (message@, path@),
    {
        ConfigError { message, path }
    }

    /// The human-readable complaint.
    pub fn message(&self) -> (r: &str)
        ensures
            r@ == self@.0,
    {
        self.message.as_str()
    }

    /// The dotted location of the offending field.
    pub fn path(&self) -> (r: &str)
        ensures
            r@ == self@.1,
    {
        self.path.as_str()
    }
}

/// Complaints about the momentum, stop-loss and holding-period ranges.
pub open spec fn spec_range_errors(c: Config) -> Seq<(Seq<char>, Seq<char>)> {
    let e = Seq::<(Seq<char>, Seq<char>)>::empty();
    let e = if c.traits.number_of_averaging_periods.max < c.traits.number_of_averaging_periods.min {
        e.push(("Max cannot be less then Min"@, "Traits.NumberOfAveragingPeriods.Max"@))
    } else {
        e
    };
    let e = if c.traits.minimum_buy_momentum.max < c.traits.minimum_buy_momentum.min {
        e.push(("Max cannot be less then Min"@, "Traits.MinimumBuyMomentum.Max"@))
    } else {
        e
    };
    let e = if c.traits.maximum_buy_momentum.max < c.traits.maximum_buy_momentum.min {
        e.push(("Max cannot be less then Min"@, "Traits.MaximumBuyMomentum.Max"@))
    } else {
        e
    };
    let e = if c.traits.trailing_stop_loss.max < c.traits.trailing_stop_loss.min {
        e.push(("Max cannot be less then Min"@, "Traits.TrailingStopLoss.Max"@))
    } else {
        e
    };
    let e = if c.traits.trailing_stop_loss.min < 0 {
        e.push(("Min cannot be less then 0"@, "Traits.TrailingStopLoss.Min"@))
    } else {
        e
    };
    let e = if c.traits.stop_loss.max < c.traits.stop_loss.min {
        e.push(("Max cannot be less then Min"@, "Traits.StopLoss.Max"@))
    } else {
        e
    };
    let e = if c.traits.stop_loss.min < 0 {
        e.push(("Min cannot be less then 0"@, "Traits.StopLoss.Min"@))
    } else {
        e
    };
    e
}

/// Complaints about the holding-period and purchase-share ranges and
/// the money scalars.
pub open spec fn spec_purchase_errors(c: Config) -> Seq<(Seq<char>, Seq<char>)> {
    let e = Seq::<(Seq<char>, Seq<char>)>::empty();
    let e = if c.traits.minimum_holding_periods.max < c.traits.minimum_holding_periods.min {
        e.push(("Max cannot be less then Min"@, "Traits.MinimumHoldingPeriods.Max"@))
    } else {
        e
    };
    let e = if c.traits.maximum_holding_periods.max < c.traits.maximum_holding_periods.min {
        e.push(("Max cannot be less then Min"@, "Traits.MaximumHoldingPeriods.Max"@))
    } else {
        e
    };
    let e = if c.traits.percent_purchase.max < c.traits.percent_purchase.min {
        e.push(("Max cannot be less then Min"@, "Traits.PercentPurchase.Max"@))
    } else {
        e
    };
    let e = if c.traits.percent_purchase.min < 0 {
        e.push(("Min cannot be less then 0"@, "Traits.PercentPurchase.Min"@))
    } else {
        e
    };
    let e = if c.traits.percent_purchase.max > crate::fixed::HUNDRED_PCT {
        e.push(("Max cannot be greater then 100"@, "Traits.PercentPurchase.Max"@))
    } else {
        e
    };
    let e = if c.minimum_purchase_size < 0 {
        e.push(("Minimum Purchase Size cannot be less then 0"@, "MinimumPurchaseSize"@))
    } else {
        e
    };
    let e = if c.starting_money < 0 {
        e.push(("Starting Money cannot be less then 0"@, "StartingMoney"@))
    } else {
        e
    };
    e
}

/// Complaints about the fee, take-profit range, mutation chance and
/// hamming bound.
pub open spec fn spec_rate_errors(c: Config) -> Seq<(Seq<char>, Seq<char>)> {
    let e = Seq::<(Seq<char>, Seq<char>)>::empty();
    let e = if c.transaction_fee_as_percentage > crate::fixed::FRAC_SCALE
        || c.transaction_fee_as_percentage < 0 {
        e.push(
            ("Transaction Fee As Percentage can only be from 0 to 1"@, "TransactionFeeAsPercentage"@),
        )
    } else {
        e
    };
    let e = if c.traits.target_sell_percentage.min <= 0 {
        e.push(("Min must be greater then 0"@, "Traits.TargetedSellPrice.Min"@))
    } else {
        e
    };
    let e = if c.traits.target_sell_percentage.min > c.traits.target_sell_percentage.max {
        e.push(("Min must be less then Max"@, "Traits.TargetSellPercentage.Min"@))
    } else {
        e
    };
    let e = if c.mutation_chance < 0 || c.mutation_chance > crate::fixed::FRAC_SCALE {
        e.push(("Mutation Chance must be between 0 and 1"@, "MutationChance"@))
    } else {
        e
    };
    let e = if c.hamming < 0 || c.hamming > crate::fixed::HUNDRED_PCT {
        e.push(("Hamming must be between 0 and 100"@, "Hamming"@))
    } else {
        e
    };
    e
}

/// The full list of (message, path) pairs `validate_config` reports, in
/// the order it reports them.
pub open spec fn spec_config_errors(c: Config) -> Seq<(Seq<char>, Seq<char>)> {
    spec_range_errors(c) + spec_purchase_errors(c) + spec_rate_errors(c)
}

/// No validation rule is violated.
pub open spec fn config_valid(c: Config) -> bool {
    &&& c.traits.number_of_averaging_periods.min <= c.traits.number_of_averaging_periods.max
    &&& c.traits.minimum_buy_momentum.min <= c.traits.minimum_buy_momentum.max
    &&& c.traits.maximum_buy_momentum.min <= c.traits.maximum_buy_momentum.max
    &&& c.traits.trailing_stop_loss.min <= c.traits.trailing_stop_loss.max
    &&& c.traits.trailing_stop_loss.min >= 0
    &&& c.traits.stop_loss.min <= c.traits.stop_loss.max
    &&& c.traits.stop_loss.min >= 0
    &&& c.traits.minimum_holding_periods.min <= c.traits.minimum_holding_periods.max
    &&& c.traits.maximum_holding_periods.min <= c.traits.maximum_holding_periods.max
    &&& c.traits.percent_purchase.min <= c.traits.percent_purchase.max
    &&& c.traits.percent_purchase.min >= 0
    &&& c.traits.percent_purchase.max <= crate::fixed::HUNDRED_PCT
    &&& c.minimum_purchase_size >= 0
    &&& c.starting_money >= 0
    &&& 0 <= c.transaction_fee_as_percentage <= crate::fixed::FRAC_SCALE
    &&& c.traits.target_sell_percentage.min > 0
    &&& c.traits.target_sell_percentage.min <= c.traits.target_sell_percentage.max
    &&& 0 <= c.mutation_chance <= crate::fixed::FRAC_SCALE
    &&& 0 <= c.hamming <= crate::fixed::HUNDRED_PCT
}

impl Config {
    /// The range rules covered by `spec_range_errors`.
    fn validate_ranges(&self) -> (r: Vec<ConfigError>)
        ensures
            r@.map_values(|e: ConfigError| e@) == spec_range_errors(*self),
    {
        let mut config_errors: Vec<ConfigError> = Vec::new();
        if self.traits.number_of_averaging_periods.max < self.traits.number_of_averaging_periods.min
        {
            config_errors.push(
                ConfigError::new(
                    String::from_str("Max cannot be less then Min"),
                    String::from_str("Traits.NumberOfAveragingPeriods.Max"),
                ),
            );
        }
        if self.traits.minimum_buy_momentum.max < self.traits.minimum_buy_momentum.min {
            config_errors.push(
                ConfigError::new(
                    String::from_str("Max cannot be less then Min"),
                    String::from_str("Traits.MinimumBuyMomentum.Max"),
                ),
            );
        }
        if self.traits.maximum_buy_momentum.max < self.traits.maximum_buy_momentum.min {
            config_errors.push(
                ConfigError::new(
                    String::from_str("Max cannot be less then Min"),
                    String::from_str("Traits.MaximumBuyMomentum.Max"),
                ),
            );
        }
        if self.traits.trailing_stop_loss.max < self.traits.trailing_stop_loss.min {
            config_errors.push(
                ConfigError::new(
                    String::from_str("Max cannot be less then Min"),
                    String::from_str("Traits.TrailingStopLoss.Max"),
                ),
            );
        }
        if self.traits.trailing_stop_loss.min < 0 {
            config_errors.push(
                ConfigError::new(
                    String::from_str("Min cannot be less then 0"),
                    String::from_str("Traits.TrailingStopLoss.Min"),
                ),
            );
        }
        if self.traits.stop_loss.max < self.traits.stop_loss.min {
            config_errors.push(
                ConfigError::new(
                    String::from_str("Max cannot be less then Min"),
                    String::from_str("Traits.StopLoss.Max"),
                ),
            );
        }
        if self.traits.stop_loss.min < 0 {
            config_errors.push(
                ConfigError::new(
                    String::from_str("Min cannot be less then 0"),
                    String::from_str("Traits.StopLoss.Min"),
                ),
            );
        }
        proof {
            assert(config_errors@.map_values(|e: ConfigError| e@) =~= spec_range_errors(*self));
        }
        config_errors
    }

    /// The purchase-share and money rules covered by
    /// `spec_purchase_errors`.
    fn validate_purchases(&self) -> (r: Vec<ConfigError>)
        ensures
            r@.map_values(|e: ConfigError| e@) == spec_purchase_errors(*self),
    {
        let mut config_errors: Vec<ConfigError> = Vec::new();
        if self.traits.minimum_holding_periods.max < self.traits.minimum_holding_periods.min {
            config_errors.push(
                ConfigError::new(
                    String::from_str("Max cannot be less then Min"),
                    String::from_str("Traits.MinimumHoldingPeriods.Max"),
                ),
            );
        }
        if self.traits.maximum_holding_periods.max < self.traits.maximum_holding_periods.min {
            config_errors.push(
                ConfigError::new(
                    String::from_str("Max cannot be less then Min"),
                    String::from_str("Traits.MaximumHoldingPeriods.Max"),
                ),
            );
        }
        if self.traits.percent_purchase.max < self.traits.percent_purchase.min {
            config_errors.push(
                ConfigError::new(
                    String::from_str("Max cannot be less then Min"),
                    String::from_str("Traits.PercentPurchase.Max"),
                ),
            );
        }
        if self.traits.percent_purchase.min < 0 {
            config_errors.push(
                ConfigError::new(
                    String::from_str("Min cannot be less then 0"),
                    String::from_str("Traits.PercentPurchase.Min"),
                ),
            );
        }
        if self.traits.percent_purchase.max > crate::fixed::HUNDRED_PCT {
            config_errors.push(
                ConfigError::new(
                    String::from_str("Max cannot be greater then 100"),
                    String::from_str("Traits.PercentPurchase.Max"),
                ),
            );
        }
        if self.minimum_purchase_size < 0 {
            config_errors.push(
                ConfigError::new(
                    String::from_str("Minimum Purchase Size cannot be less then 0"),
                    String::from_str("MinimumPurchaseSize"),
                ),
            );
        }
        if self.starting_money < 0 {
            config_errors.push(
                ConfigError::new(
                    String::from_str("Starting Money cannot be less then 0"),
                    String::from_str("StartingMoney"),
                ),
            );
        }
        proof {
            assert(config_errors@.map_values(|e: ConfigError| e@) =~= spec_purchase_errors(*self));
        }
        config_errors
    }

    /// The fee, take-profit, mutation and hamming rules covered by
    /// `spec_rate_errors`.
    fn validate_rates(&self) -> (r: Vec<ConfigError>)
        ensures
            r@.map_values(|e: ConfigError| e@) == spec_rate_errors(*self),
    {
        let mut config_errors: Vec<ConfigError> = Vec::new();
        if self.transaction_fee_as_percentage > crate::fixed::FRAC_SCALE
            || self.transaction_fee_as_percentage < 0 {
            config_errors.push(
                ConfigError::new(
                    String::from_str("Transaction Fee As Percentage can only be from 0 to 1"),
                    String::from_str("TransactionFeeAsPercentage"),
                ),
            );
        }
        if self.traits.target_sell_percentage.min <= 0 {
            config_errors.push(
                ConfigError::new(
                    String::from_str("Min must be greater then 0"),
                    String::from_str("Traits.TargetedSellPrice.Min"),
                ),
            );
        }
        if self.traits.target_sell_percentage.min > self.traits.target_sell_percentage.max {
            config_errors.push(
                ConfigError::new(
                    String::from_str("Min must be less then Max"),
                    String::from_str("Traits.TargetSellPercentage.Min"),
                ),
            );
        }
        if self.mutation_chance < 0 || self.mutation_chance > crate::fixed::FRAC_SCALE {
            config_errors.push(
                ConfigError::new(
                    String::from_str("Mutation Chance must be between 0 and 1"),
                    String::from_str("MutationChance"),
                ),
            );
        }
        if self.hamming < 0 || self.hamming > crate::fixed::HUNDRED_PCT {
            config_errors.push(
                ConfigError::new(
                    String::from_str("Hamming must be between 0 and 100"),
                    String::from_str("Hamming"),
                ),
            );
        }
        proof {
            assert(config_errors@.map_values(|e: ConfigError| e@) =~= spec_rate_errors(*self));
        }
        config_errors
    }

    /// Check every field-level rule and report each violation, in a
    /// fixed order.
    pub fn validate_config(&self) -> (r: Vec<ConfigError>)
        ensures
            r@.map_values(|e: ConfigError| e@) == spec_config_errors(*self),
            r@.len() == 0 <==> config_valid(*self),
    {
        let mut config_errors = self.validate_ranges();
        let mut purchase_errors = self.validate_purchases();
        let mut rate_errors = self.validate_rates();
        config_errors.append(&mut purchase_errors);
        config_errors.append(&mut rate_errors);
        proof {
            assert(config_errors@.map_values(|e: ConfigError| e@) =~= spec_config_errors(*self));
            assert(spec_config_errors(*self).len() == 0 <==> config_valid(*self)) by {
                if config_valid(*self) {
                    assert(spec_config_errors(*self).len() == 0);
                } else {
                    assert(spec_config_errors(*self).len() > 0);
                }
            }
        }
        config_errors
    }
}

} // verus!
