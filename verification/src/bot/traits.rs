//! The genome: the heritable numeric parameters of one bot.

use vstd::prelude::*;

use crate::config::Config;
use crate::rng::{sample_coin, sample_i64, sample_u64};

verus! {

/// A direction a momentum rule could be scoped to.
#[derive(Copy, Clone, PartialEq, Eq, Structural, Hash, Debug)]
pub enum Direction {
    Up,
    Down,
    Both,
}

/// One bot's tunable parameters.  Momentum bounds, stop-loss distances,
/// the purchase share and the take-profit distance are percentages in
/// `PCT_SCALE` ticks; the period counts are plain integers.
#[derive(Copy, Clone, PartialEq, Eq, Structural, Debug)]
pub struct Traits {
    pub number_of_averaging_periods: u64,
    pub minimum_buy_momentum: i64,
    pub maximum_buy_momentum: i64,
    pub trailing_stop_loss: i64,
    pub stop_loss: i64,
    pub minimum_holding_periods: u64,
    pub maximum_holding_periods: u64,
    pub percent_purchase: i64,
    pub target_sell_percentage: i64,
}

/// What one uniform draw from the half-open range `lo..hi` can yield; a
/// collapsed range yields its single endpoint.
pub open spec fn sampled(lo: int, hi: int, v: int) -> bool {
    if lo < hi {
        lo <= v < hi
    } else {
        v == lo
    }
}

/// Every field lies in the half-open range its configuration declares.
pub open spec fn traits_sampled(t: Traits, c: Config) -> bool {
    &&& sampled(
        c.traits.number_of_averaging_periods.min as int,
        c.traits.number_of_averaging_periods.max as int,
        t.number_of_averaging_periods as int,
    )
    &&& sampled(
        c.traits.minimum_buy_momentum.min as int,
        c.traits.minimum_buy_momentum.max as int,
        t.minimum_buy_momentum as int,
    )
    &&& sampled(
        c.traits.maximum_buy_momentum.min as int,
        c.traits.maximum_buy_momentum.max as int,
        t.maximum_buy_momentum as int,
    )
    &&& sampled(
        c.traits.trailing_stop_loss.min as int,
        c.traits.trailing_stop_loss.max as int,
        t.trailing_stop_loss as int,
    )
    &&& sampled(c.traits.stop_loss.min as int, c.traits.stop_loss.max as int, t.stop_loss as int)
    &&& sampled(
        c.traits.minimum_holding_periods.min as int,
        c.traits.minimum_holding_periods.max as int,
        t.minimum_holding_periods as int,
    )
    &&& sampled(
        c.traits.maximum_holding_periods.min as int,
        c.traits.maximum_holding_periods.max as int,
        t.maximum_holding_periods as int,
    )
    &&& sampled(
        c.traits.percent_purchase.min as int,
        c.traits.percent_purchase.max as int,
        t.percent_purchase as int,
    )
    &&& sampled(
        c.traits.target_sell_percentage.min as int,
        c.traits.target_sell_percentage.max as int,
        t.target_sell_percentage as int,
    )
}

/// Each field was either inherited unchanged or freshly sampled from
/// its configured range: the outcome of one round of mutation.
pub open spec fn mutated_from(t: Traits, before: Traits, c: Config) -> bool {
    &&& t.number_of_averaging_periods == before.number_of_averaging_periods || sampled(
        c.traits.number_of_averaging_periods.min as int,
        c.traits.number_of_averaging_periods.max as int,
        t.number_of_averaging_periods as int,
    )
    &&& t.minimum_buy_momentum == before.minimum_buy_momentum || sampled(
        c.traits.minimum_buy_momentum.min as int,
        c.traits.minimum_buy_momentum.max as int,
        t.minimum_buy_momentum as int,
    )
    &&& t.maximum_buy_momentum == before.maximum_buy_momentum || sampled(
        c.traits.maximum_buy_momentum.min as int,
        c.traits.maximum_buy_momentum.max as int,
        t.maximum_buy_momentum as int,
    )
    &&& t.trailing_stop_loss == before.trailing_stop_loss || sampled(
        c.traits.trailing_stop_loss.min as int,
        c.traits.trailing_stop_loss.max as int,
        t.trailing_stop_loss as int,
    )
    &&& t.stop_loss == before.stop_loss || sampled(
        c.traits.stop_loss.min as int,
        c.traits.stop_loss.max as int,
        t.stop_loss as int,
    )
    &&& t.minimum_holding_periods == before.minimum_holding_periods || sampled(
        c.traits.minimum_holding_periods.min as int,
        c.traits.minimum_holding_periods.max as int,
        t.minimum_holding_periods as int,
    )
    &&& t.maximum_holding_periods == before.maximum_holding_periods || sampled(
        c.traits.maximum_holding_periods.min as int,
        c.traits.maximum_holding_periods.max as int,
        t.maximum_holding_periods as int,
    )
    &&& t.percent_purchase == before.percent_purchase || sampled(
        c.traits.percent_purchase.min as int,
        c.traits.percent_purchase.max as int,
        t.percent_purchase as int,
    )
    &&& t.target_sell_percentage == before.target_sell_percentage || sampled(
        c.traits.target_sell_percentage.min as int,
        c.traits.target_sell_percentage.max as int,
        t.target_sell_percentage as int,
    )
}

/// Each field was taken from one of the two parents: the outcome of a
/// uniform per-field crossover.
pub open spec fn crossover_of(t: Traits, a: Traits, b: Traits) -> bool {
    &&& t.number_of_averaging_periods == a.number_of_averaging_periods
        || t.number_of_averaging_periods == b.number_of_averaging_periods
    &&& t.minimum_buy_momentum == a.minimum_buy_momentum || t.minimum_buy_momentum
        == b.minimum_buy_momentum
    &&& t.maximum_buy_momentum == a.maximum_buy_momentum || t.maximum_buy_momentum
        == b.maximum_buy_momentum
    &&& t.trailing_stop_loss == a.trailing_stop_loss || t.trailing_stop_loss == b.trailing_stop_loss
    &&& t.stop_loss == a.stop_loss || t.stop_loss == b.stop_loss
    &&& t.minimum_holding_periods == a.minimum_holding_periods || t.minimum_holding_periods
        == b.minimum_holding_periods
    &&& t.maximum_holding_periods == a.maximum_holding_periods || t.maximum_holding_periods
        == b.maximum_holding_periods
    &&& t.percent_purchase == a.percent_purchase || t.percent_purchase == b.percent_purchase
    &&& t.target_sell_percentage == a.target_sell_percentage || t.target_sell_percentage
        == b.target_sell_percentage
}

/// The genome came from a crossover of the two parents followed by one
/// round of mutation.
pub open spec fn bred_from(t: Traits, a: Traits, b: Traits, c: Config) -> bool {
    exists|mid: Traits| crossover_of(mid, a, b) && mutated_from(t, mid, c)
}

/// Draw from `lo..hi`, or take the endpoint of a collapsed range.
fn draw_u64(lo: u64, hi: u64) -> (r: u64)
    ensures
        sampled(lo as int, hi as int, r as int),
{
    if lo < hi {
        sample_u64(lo, hi)
    } else {
        lo
    }
}

/// Draw from `lo..hi`, or take the endpoint of a collapsed range.
fn draw_i64(lo: i64, hi: i64) -> (r: i64)
    ensures
        sampled(lo as int, hi as int, r as int),
{
    if lo < hi {
        sample_i64(lo, hi)
    } else {
        lo
    }
}

impl Traits {
    /// A fresh genome, each field drawn uniformly from its configured
    /// range.
    pub fn new(config: &Config) -> (r: Traits)
        ensures
            traits_sampled(r, *config),
    {
        let number_of_averaging_periods = draw_u64(
            config.traits.number_of_averaging_periods.min,
            config.traits.number_of_averaging_periods.max,
        );
        let minimum_buy_momentum = draw_i64(
            config.traits.minimum_buy_momentum.min,
            config.traits.minimum_buy_momentum.max,
        );
        let maximum_buy_momentum = draw_i64(
            config.traits.maximum_buy_momentum.min,
            config.traits.maximum_buy_momentum.max,
        );
        let trailing_stop_loss = draw_i64(
            config.traits.trailing_stop_loss.min,
            config.traits.trailing_stop_loss.max,
        );
        let stop_loss = draw_i64(config.traits.stop_loss.min, config.traits.stop_loss.max);
        let minimum_holding_periods = draw_u64(
            config.traits.minimum_holding_periods.min,
            config.traits.minimum_holding_periods.max,
        );
        let maximum_holding_periods = draw_u64(
            config.traits.maximum_holding_periods.min,
            config.traits.maximum_holding_periods.max,
        );
        let percent_purchase = draw_i64(
            config.traits.percent_purchase.min,
            config.traits.percent_purchase.max,
        );
        let target_sell_percentage = draw_i64(
            config.traits.target_sell_percentage.min,
            config.traits.target_sell_percentage.max,
        );
        Traits {
            number_of_averaging_periods,
            minimum_buy_momentum,
            maximum_buy_momentum,
            trailing_stop_loss,
            stop_loss,
            minimum_holding_periods,
            maximum_holding_periods,
            percent_purchase,
            target_sell_percentage,
        }
    }

    /// For each field independently: with probability
    /// `config.mutation_chance`, discard it and resample from its range.
    pub fn mutate(&mut self, config: &Config)
        ensures
            mutated_from(*final(self), *old(self), *config),
    {
        if sample_coin(config.mutation_chance) {
            self.number_of_averaging_periods = draw_u64(
                config.traits.number_of_averaging_periods.min,
                config.traits.number_of_averaging_periods.max,
            );
        }
        if sample_coin(config.mutation_chance) {
            self.minimum_buy_momentum = draw_i64(
                config.traits.minimum_buy_momentum.min,
                config.traits.minimum_buy_momentum.max,
            );
        }
        if sample_coin(config.mutation_chance) {
            self.maximum_buy_momentum = draw_i64(
                config.traits.maximum_buy_momentum.min,
                config.traits.maximum_buy_momentum.max,
            );
        }
        if sample_coin(config.mutation_chance) {
            self.trailing_stop_loss = draw_i64(
                config.traits.trailing_stop_loss.min,
                config.traits.trailing_stop_loss.max,
            );
        }
        if sample_coin(config.mutation_chance) {
            self.stop_loss = draw_i64(config.traits.stop_loss.min, config.traits.stop_loss.max);
        }
        if sample_coin(config.mutation_chance) {
            self.minimum_holding_periods = draw_u64(
                config.traits.minimum_holding_periods.min,
                config.traits.minimum_holding_periods.max,
            );
        }
        if sample_coin(config.mutation_chance) {
            self.maximum_holding_periods = draw_u64(
                config.traits.maximum_holding_periods.min,
                config.traits.maximum_holding_periods.max,
            );
        }
        if sample_coin(config.mutation_chance) {
            self.percent_purchase = draw_i64(
                config.traits.percent_purchase.min,
                config.traits.percent_purchase.max,
            );
        }
        if sample_coin(config.mutation_chance) {
            self.target_sell_percentage = draw_i64(
                config.traits.target_sell_percentage.min,
                config.traits.target_sell_percentage.max,
            );
        }
    }
}

} // verus!
