//! The trading bot: one genome, one cash balance, its open and closed
//! positions, and the per-period decision procedure.
//!
//! The decision procedure is specified by a step function over
//! `BotModel`, the mathematical image of a bot; `run_period` is proved
//! to realise exactly one step of it.

pub mod holdings;
pub mod traits;

use vstd::prelude::*;

use crate::asset::Asset;
use crate::bot::holdings::{
    spec_new_holding, spec_sold_holding, spec_update_holding, CurrentHolding, SellReason,
    SoldHolding,
};
use crate::bot::traits::{bred_from, crossover_of, traits_sampled, Traits};
use crate::config::Config;
use crate::fixed::{
    lemma_mul_bound, mul_i64, rha, rha64, rha_div, rha_div64, sat64, sat_add, sat_sub,
    AMOUNT_SCALE, FRAC_SCALE, HUNDRED_PCT,
};
use crate::price_data::{series_wf, PriceData};
use crate::rng::sample_coin;

verus! {

/// One trading bot.  It lives for exactly one generation: created
/// fresh or by breeding, mutated in place by `run_period`, and read
/// only after the final period.
#[derive(Clone, Debug)]
pub struct Bot {
    pub id: u64,
    pub traits: Traits,
    /// Cash balance in money ticks.
    pub money: i64,
    pub current_holdings: Vec<CurrentHolding>,
    pub sold_holdings: Vec<SoldHolding>,
    /// Final cash if the bot ever sold, zero otherwise; set at forced
    /// liquidation.
    pub fitness: i64,
    pub start_time: Option<u64>,
    pub end_time: Option<u64>,
}

/// The mathematical image of a bot: the same fields with the position
/// lists as sequences.
#[verifier::ext_equal]
pub struct BotModel {
    pub id: u64,
    pub traits: Traits,
    pub money: i64,
    pub current_holdings: Seq<CurrentHolding>,
    pub sold_holdings: Seq<SoldHolding>,
    pub fitness: i64,
    pub start_time: Option<u64>,
    pub end_time: Option<u64>,
}

impl View for Bot {
    type V = BotModel;

    open spec fn view(&self) -> BotModel {
        BotModel {
            id: self.id,
            traits: self.traits,
            money: self.money,
            current_holdings: self.current_holdings@,
            sold_holdings: self.sold_holdings@,
            fitness: self.fitness,
            start_time: self.start_time,
            end_time: self.end_time,
        }
    }
}

/// The cash a purchase may commit: `percent_purchase` percent of it.
pub open spec fn spec_money_to_spend(money: int, percent_purchase: int) -> int {
    rha64(money * percent_purchase, HUNDRED_PCT as int)
}

/// Momentum — the percent change of `cur` over `prev` — lies within
/// the genome's buy band.  Stated multiplied out by `prev > 0`, so it
/// is exact: no intermediate rounding.
pub open spec fn spec_momentum_within(cur: int, prev: int, t: Traits) -> bool
    recommends
        prev >= 1,
{
    &&& (HUNDRED_PCT as int) * (cur - prev) >= t.minimum_buy_momentum * prev
    &&& (HUNDRED_PCT as int) * (cur - prev) <= t.maximum_buy_momentum * prev
}

/// Lots bought for `money_to_spend` at `price`, rounded to the
/// exchange's four-decimal lot granularity, half away from zero.
pub open spec fn spec_amount_to_buy(money_to_spend: int, price: int) -> int
    recommends
        price >= 1,
{
    rha64(money_to_spend * (AMOUNT_SCALE as int), price)
}

/// Money value of `amount` lots at `price`, before fees.
pub open spec fn spec_trade_value(amount: int, price: int) -> int {
    rha64(amount * price, AMOUNT_SCALE as int)
}

/// The transaction fee on a trade of value `base`.
pub open spec fn spec_fee(base: int, fee_frac: int) -> int {
    rha64(base * fee_frac, FRAC_SCALE as int)
}

/// One buy evaluation.  The purchase is skipped — the bot unchanged —
/// when the committed cash is under the configured minimum or momentum
/// is outside the buy band; otherwise one holding opens at the period's
/// open price and the cash falls by cost plus fee.
pub open spec fn spec_handle_buy(b: BotModel, cfg: Config, cur: PriceData, prev: PriceData)
    -> BotModel
    recommends
        cur.open >= 1,
        prev.open >= 1,
{
    let money_to_spend = spec_money_to_spend(b.money as int, b.traits.percent_purchase as int);
    if money_to_spend < cfg.minimum_purchase_size {
        b
    } else if !spec_momentum_within(cur.open as int, prev.open as int, b.traits) {
        b
    } else {
        let amount = spec_amount_to_buy(money_to_spend, cur.open as int);
        let value = spec_trade_value(amount, cur.open as int);
        let fee = spec_fee(value, cfg.transaction_fee_as_percentage as int);
        let money_spent = sat64(value + fee);
        BotModel {
            money: sat64(b.money - money_spent) as i64,
            current_holdings: b.current_holdings.push(
                spec_new_holding(
                    cur.open as int,
                    cur.time,
                    amount,
                    money_spent,
                    Asset::ETH,
                    b.traits,
                    fee,
                ),
            ),
            ..b
        }
    }
}

/// The prioritised sell decision for one holding, first match wins:
/// take-profit on the period's high beats everything, then the maximum
/// holding time, then the minimum holding time protects the position,
/// then the stop-loss, then the trailing stop.
pub open spec fn spec_sell_reason(t: Traits, h: CurrentHolding, p: PriceData)
    -> Option<SellReason> {
    if h.targeted_sell_price < p.high {
        Some(SellReason::TargetedSellPrice)
    } else if h.periods_held >= t.maximum_holding_periods {
        Some(SellReason::MaxPeriodsHeld)
    } else if h.periods_held < t.minimum_holding_periods {
        None
    } else if p.close <= h.stop_loss {
        Some(SellReason::StopLoss)
    } else if p.close <= h.trailing_stop_loss {
        Some(SellReason::TrailingStopLoss)
    } else {
        None
    }
}

/// The closed record a sale produces: a take-profit sale executes at
/// the target price itself, every other reason at the period's close.
pub open spec fn spec_sale(h: CurrentHolding, reason: SellReason, p: PriceData, fee_frac: int)
    -> SoldHolding {
    let exit = if reason == SellReason::TargetedSellPrice {
        h.targeted_sell_price as int
    } else {
        p.close as int
    };
    let gross = spec_trade_value(h.amount as int, exit);
    let sell_fee = spec_fee(gross, fee_frac);
    let money_from_sell = sat64(gross - sell_fee);
    spec_sold_holding(h, exit, money_from_sell, sell_fee, reason, p.time)
}

/// Every holding after its per-period maintenance.
pub open spec fn spec_updated_holdings(hs: Seq<CurrentHolding>, close: int, t: Traits)
    -> Seq<CurrentHolding> {
    hs.map_values(|h: CurrentHolding| spec_update_holding(h, close, t))
}

/// The holdings that survive the period, in order: those with no sell
/// reason.
pub open spec fn spec_kept_holdings(hs: Seq<CurrentHolding>, t: Traits, p: PriceData)
    -> Seq<CurrentHolding>
    decreases hs.len(),
{
    if hs.len() == 0 {
        Seq::empty()
    } else {
        let prefix = spec_kept_holdings(hs.drop_last(), t, p);
        if spec_sell_reason(t, hs.last(), p) is None {
            prefix.push(hs.last())
        } else {
            prefix
        }
    }
}

/// The closed records the period appends, in holding order.
pub open spec fn spec_sales(hs: Seq<CurrentHolding>, t: Traits, p: PriceData, fee_frac: int)
    -> Seq<SoldHolding>
    decreases hs.len(),
{
    if hs.len() == 0 {
        Seq::empty()
    } else {
        let prefix = spec_sales(hs.drop_last(), t, p, fee_frac);
        match spec_sell_reason(t, hs.last(), p) {
            Some(reason) => prefix.push(spec_sale(hs.last(), reason, p, fee_frac)),
            None => prefix,
        }
    }
}

/// Cash after banking each sale's proceeds, in holding order.
pub open spec fn spec_money_after_sales(
    money: int,
    hs: Seq<CurrentHolding>,
    t: Traits,
    p: PriceData,
    fee_frac: int,
) -> int
    decreases hs.len(),
{
    if hs.len() == 0 {
        money
    } else {
        let prev = spec_money_after_sales(money, hs.drop_last(), t, p, fee_frac);
        match spec_sell_reason(t, hs.last(), p) {
            Some(reason) => sat64(prev + spec_sale(hs.last(), reason, p, fee_frac).money_from_sell),
            None => prev,
        }
    }
}

/// One sell evaluation over every open holding: maintenance first,
/// then each holding with a sell reason is closed and its proceeds
/// banked, the rest survive.
pub open spec fn spec_handle_sell(b: BotModel, cfg: Config, p: PriceData) -> BotModel {
    let upd = spec_updated_holdings(b.current_holdings, p.close as int, b.traits);
    BotModel {
        money: spec_money_after_sales(
            b.money as int,
            upd,
            b.traits,
            p,
            cfg.transaction_fee_as_percentage as int,
        ) as i64,
        current_holdings: spec_kept_holdings(upd, b.traits, p),
        sold_holdings: b.sold_holdings + spec_sales(
            upd,
            b.traits,
            p,
            cfg.transaction_fee_as_percentage as int,
        ),
        ..b
    }
}

/// Every remaining holding closed by force, in holding order.
pub open spec fn spec_forced_sales(hs: Seq<CurrentHolding>, p: PriceData, fee_frac: int)
    -> Seq<SoldHolding> {
    hs.map_values(|h: CurrentHolding| spec_sale(h, SellReason::Forced, p, fee_frac))
}

/// Cash after banking every forced sale, in holding order.
pub open spec fn spec_money_after_forced(
    money: int,
    hs: Seq<CurrentHolding>,
    p: PriceData,
    fee_frac: int,
) -> int
    decreases hs.len(),
{
    if hs.len() == 0 {
        money
    } else {
        let prev = spec_money_after_forced(money, hs.drop_last(), p, fee_frac);
        sat64(prev + spec_sale(hs.last(), SellReason::Forced, p, fee_frac).money_from_sell)
    }
}

/// Forced liquidation at the end of the run: one last maintenance
/// pass, every holding sold at the close, and the fitness fixed —
/// final cash if the bot ever sold anything, zero otherwise.
pub open spec fn spec_sell_all(b: BotModel, p: PriceData, fee_frac: int) -> BotModel {
    let upd = spec_updated_holdings(b.current_holdings, p.close as int, b.traits);
    let money = spec_money_after_forced(b.money as int, upd, p, fee_frac) as i64;
    let sold = b.sold_holdings + spec_forced_sales(upd, p, fee_frac);
    BotModel {
        money,
        current_holdings: Seq::empty(),
        sold_holdings: sold,
        fitness: if sold.len() == 0 {
            0
        } else {
            money
        },
        ..b
    }
}

/// One full period of the decision procedure.
pub open spec fn spec_run_period(b: BotModel, series: Seq<PriceData>, period: int, cfg: Config)
    -> BotModel
    recommends
        0 <= period < series.len(),
        series_wf(series),
{
    let b1 = if b.start_time is None {
        BotModel { start_time: Some(series[0].time), ..b }
    } else {
        b
    };
    if period < b1.traits.number_of_averaging_periods {
        b1
    } else {
        let prev = series[period - b1.traits.number_of_averaging_periods];
        let cur = series[period];
        if series.len() == period + 1 {
            let b2 = spec_sell_all(b1, cur, cfg.transaction_fee_as_percentage as int);
            BotModel { end_time: Some(cur.time), ..b2 }
        } else {
            spec_handle_sell(spec_handle_buy(b1, cfg, cur, prev), cfg, cur)
        }
    }
}

/// The prioritised sell decision, executably.
fn get_sell_reason(t: &Traits, holding: &CurrentHolding, current_price_data: &PriceData) -> (r:
    Option<SellReason>)
    ensures
        r == spec_sell_reason(*t, *holding, *current_price_data),
{
    if holding.targeted_sell_price < current_price_data.high {
        return Some(SellReason::TargetedSellPrice);
    }
    if holding.periods_held >= t.maximum_holding_periods {
        return Some(SellReason::MaxPeriodsHeld);
    }
    if holding.periods_held < t.minimum_holding_periods {
        return None;
    }
    if current_price_data.close <= holding.stop_loss {
        return Some(SellReason::StopLoss);
    }
    if current_price_data.close <= holding.trailing_stop_loss {
        return Some(SellReason::TrailingStopLoss);
    }
    None
}

/// Close `holding` for `reason`, producing its record.
fn fill_sale(holding: &CurrentHolding, reason: SellReason, p: &PriceData, fee_frac: i64) -> (r:
    SoldHolding)
    ensures
        r == spec_sale(*holding, reason, *p, fee_frac as int),
{
    let exit: i64 = if reason == SellReason::TargetedSellPrice {
        holding.targeted_sell_price
    } else {
        p.close
    };
    let gross: i64 = rha_div64(mul_i64(holding.amount, exit), AMOUNT_SCALE as i128);
    let sell_fee: i64 = rha_div64(mul_i64(gross, fee_frac), FRAC_SCALE as i128);
    let money_from_sell: i64 = sat_sub(gross, sell_fee);
    SoldHolding::new(holding, exit, money_from_sell, sell_fee, reason, p.time)
}

impl Bot {
    /// A bot with a freshly sampled genome and the configured starting
    /// cash.
    pub fn new(config: &Config, id: u64) -> (r: Bot)
        ensures
            r.id == id,
            traits_sampled(r.traits, *config),
            r.money == config.starting_money,
            r.current_holdings@ == Seq::<CurrentHolding>::empty(),
            r.sold_holdings@ == Seq::<SoldHolding>::empty(),
            r.fitness == 0,
            r.start_time is None,
            r.end_time is None,
    {
        Bot {
            id,
            traits: Traits::new(config),
            money: config.starting_money,
            current_holdings: Vec::<CurrentHolding>::new(),
            sold_holdings: Vec::<SoldHolding>::new(),
            fitness: 0,
            start_time: None,
            end_time: None,
        }
    }

    /// A fresh bot carrying this bot's genome.
    pub fn create_clone(&self, config: &Config, id: u64) -> (r: Bot)
        ensures
            r.id == id,
            r.traits == self.traits,
            r.money == config.starting_money,
            r.current_holdings@ == Seq::<CurrentHolding>::empty(),
            r.sold_holdings@ == Seq::<SoldHolding>::empty(),
            r.fitness == 0,
            r.start_time is None,
            r.end_time is None,
    {
        let traits_copy = self.traits;
        let money = config.starting_money;
        Bot {
            id,
            traits: traits_copy,
            money,
            current_holdings: Vec::<CurrentHolding>::new(),
            sold_holdings: Vec::<SoldHolding>::new(),
            fitness: 0,
            start_time: None,
            end_time: None,
        }
    }

    fn handle_buy(&mut self, config: &Config, current_price_data: &PriceData, old_price_data:
        &PriceData)
        requires
            current_price_data.open >= 1,
            old_price_data.open >= 1,
        ensures
            final(self)@ == spec_handle_buy(
                old(self)@,
                *config,
                *current_price_data,
                *old_price_data,
            ),
    {
        let money_to_spend: i64 = rha_div64(
            mul_i64(self.money, self.traits.percent_purchase),
            HUNDRED_PCT as i128,
        );
        if money_to_spend < config.minimum_purchase_size {
            return;
        }
        let diff: i128 = (current_price_data.open as i128) - (old_price_data.open as i128);
        proof {
            lemma_mul_bound(
                HUNDRED_PCT as int,
                diff as int,
                HUNDRED_PCT as int,
                0x1_0000_0000_0000_0000,
            );
        }
        let scaled_momentum: i128 = (HUNDRED_PCT as i128) * diff;
        if scaled_momentum < mul_i64(self.traits.minimum_buy_momentum, old_price_data.open)
            || scaled_momentum > mul_i64(self.traits.maximum_buy_momentum, old_price_data.open) {
            return;
        }
        let amount_to_buy: i64 = rha_div64(
            mul_i64(money_to_spend, AMOUNT_SCALE),
            current_price_data.open as i128,
        );
        let money_spent_no_fee: i64 = rha_div64(
            mul_i64(amount_to_buy, current_price_data.open),
            AMOUNT_SCALE as i128,
        );
        let fee: i64 = rha_div64(
            mul_i64(money_spent_no_fee, config.transaction_fee_as_percentage),
            FRAC_SCALE as i128,
        );
        let money_spent: i64 = sat_add(money_spent_no_fee, fee);
        let new_holding = CurrentHolding::new(
            current_price_data.open,
            current_price_data.time,
            amount_to_buy,
            money_spent,
            Asset::ETH,
            &self.traits,
            fee,
        );
        self.current_holdings.push(new_holding);
        self.money = sat_sub(self.money, money_spent);
        proof {
            assert(self@ =~= spec_handle_buy(
                old(self)@,
                *config,
                *current_price_data,
                *old_price_data,
            ));
        }
    }

    fn handle_sell(&mut self, config: &Config, current_price_data: &PriceData)
        ensures
            final(self)@ == spec_handle_sell(old(self)@, *config, *current_price_data),
    {
        let ghost orig = self@;
        let ghost upd = spec_updated_holdings(
            orig.current_holdings,
            current_price_data.close as int,
            orig.traits,
        );
        let ghost fee_frac = config.transaction_fee_as_percentage as int;
        let n: usize = self.current_holdings.len();
        let mut kept: Vec<CurrentHolding> = Vec::new();
        let mut sold_new: Vec<SoldHolding> = Vec::new();
        let mut money: i64 = self.money;
        let mut i: usize = 0;
        while i < n
            invariant
                i <= n,
                self@ == orig,
                n == orig.current_holdings.len(),
                upd == spec_updated_holdings(
                    orig.current_holdings,
                    current_price_data.close as int,
                    orig.traits,
                ),
                fee_frac == config.transaction_fee_as_percentage as int,
                kept@ == spec_kept_holdings(upd.take(i as int), orig.traits, *current_price_data),
                sold_new@ == spec_sales(
                    upd.take(i as int),
                    orig.traits,
                    *current_price_data,
                    fee_frac,
                ),
                money as int == spec_money_after_sales(
                    orig.money as int,
                    upd.take(i as int),
                    orig.traits,
                    *current_price_data,
                    fee_frac,
                ),
            decreases n - i,
        {
            let mut h: CurrentHolding = self.current_holdings[i];
            h.update_for_new_period(current_price_data.close, &self.traits);
            proof {
                assert(h == upd[i as int]);
                assert(upd.take(i + 1).drop_last() =~= upd.take(i as int));
                assert(upd.take(i + 1).last() == upd[i as int]);
            }
            match get_sell_reason(&self.traits, &h, current_price_data) {
                Some(reason) => {
                    let sale = fill_sale(&h, reason, current_price_data,
                        config.transaction_fee_as_percentage);
                    money = sat_add(money, sale.money_from_sell);
                    sold_new.push(sale);
                },
                None => {
                    kept.push(h);
                },
            }
            i = i + 1;
        }
        proof {
            assert(upd.take(n as int) =~= upd);
        }
        self.money = money;
        self.current_holdings = kept;
        self.sold_holdings.append(&mut sold_new);
        proof {
            assert(self@ =~= spec_handle_sell(orig, *config, *current_price_data));
        }
    }

    fn sell_all(&mut self, current_price_data: &PriceData, transaction_fee_as_percentage: i64)
        ensures
            final(self)@ == spec_sell_all(
                old(self)@,
                *current_price_data,
                transaction_fee_as_percentage as int,
            ),
    {
        let ghost orig = self@;
        let ghost upd = spec_updated_holdings(
            orig.current_holdings,
            current_price_data.close as int,
            orig.traits,
        );
        let ghost fee_frac = transaction_fee_as_percentage as int;
        let n: usize = self.current_holdings.len();
        let mut sold_new: Vec<SoldHolding> = Vec::new();
        let mut money: i64 = self.money;
        let mut i: usize = 0;
        while i < n
            invariant
                i <= n,
                self@ == orig,
                n == orig.current_holdings.len(),
                upd == spec_updated_holdings(
                    orig.current_holdings,
                    current_price_data.close as int,
                    orig.traits,
                ),
                fee_frac == transaction_fee_as_percentage as int,
                sold_new@ == spec_forced_sales(
                    upd.take(i as int),
                    *current_price_data,
                    fee_frac,
                ),
                money as int == spec_money_after_forced(
                    orig.money as int,
                    upd.take(i as int),
                    *current_price_data,
                    fee_frac,
                ),
            decreases n - i,
        {
            let mut h: CurrentHolding = self.current_holdings[i];
            h.update_for_new_period(current_price_data.close, &self.traits);
            proof {
                assert(h == upd[i as int]);
                assert(upd.take(i + 1).drop_last() =~= upd.take(i as int));
                assert(upd.take(i + 1).last() == upd[i as int]);
                assert(spec_forced_sales(upd.take(i + 1), *current_price_data, fee_frac)
                    =~= spec_forced_sales(upd.take(i as int), *current_price_data, fee_frac).push(
                    spec_sale(upd[i as int], SellReason::Forced, *current_price_data, fee_frac),
                ));
            }
            let sale = fill_sale(&h, SellReason::Forced, current_price_data,
                transaction_fee_as_percentage);
            money = sat_add(money, sale.money_from_sell);
            sold_new.push(sale);
            i = i + 1;
        }
        proof {
            assert(upd.take(n as int) =~= upd);
        }
        self.money = money;
        self.current_holdings.clear();
        self.sold_holdings.append(&mut sold_new);
        self.calculate_fitness();
        proof {
            assert(self@ =~= spec_sell_all(
                orig,
                *current_price_data,
                transaction_fee_as_percentage as int,
            ));
        }
    }

    /// Zero for a bot that never sold, else the cash balance.
    fn calculate_fitness(&mut self)
        ensures
            final(self)@ == (BotModel {
                fitness: if old(self)@.sold_holdings.len() == 0 {
                    0
                } else {
                    old(self)@.money
                },
                ..old(self)@
            }),
    {
        if self.sold_holdings.len() == 0 {
            self.fitness = 0;
            return;
        }
        self.fitness = self.money;
    }

    /// Run one period of the decision procedure against the series:
    /// record the start time once, wait out the averaging window,
    /// force-liquidate on the final period, otherwise evaluate a buy
    /// and then every sell.
    pub fn run_period(&mut self, price_history: &Vec<PriceData>, period: u64, config: &Config)
        requires
            (period as int) < price_history@.len(),
            series_wf(price_history@),
        ensures
            final(self)@ == spec_run_period(old(self)@, price_history@, period as int, *config),
    {
        if self.start_time.is_none() {
            self.start_time = Some(price_history[0].time);
        }
        if period < self.traits.number_of_averaging_periods {
            return;
        }
        let old_price_data: PriceData = price_history[(period
            - self.traits.number_of_averaging_periods) as usize];
        let current_price_data: PriceData = price_history[period as usize];
        if price_history.len() == (period as usize) + 1 {
            self.sell_all(&current_price_data, config.transaction_fee_as_percentage);
            self.end_time = Some(current_price_data.time);
            return;
        }
        self.handle_buy(config, &current_price_data, &old_price_data);
        self.handle_sell(config, &current_price_data);
    }

    /// The average symmetric percent difference over all nine genome
    /// fields, in `PCT_SCALE` ticks: a diagnostic of genome diversity.
    pub fn hamming(&self, bot_two: &Bot) -> (r: i64)
        requires
            hamming_defined(self.traits, bot_two.traits),
        ensures
            r as int == spec_hamming(self.traits, bot_two.traits),
    {
        let total: i128 = percent_difference(
            self.traits.number_of_averaging_periods as i128,
            bot_two.traits.number_of_averaging_periods as i128,
        ) + percent_difference(
            self.traits.minimum_buy_momentum as i128,
            bot_two.traits.minimum_buy_momentum as i128,
        ) + percent_difference(
            self.traits.maximum_buy_momentum as i128,
            bot_two.traits.maximum_buy_momentum as i128,
        ) + percent_difference(
            self.traits.trailing_stop_loss as i128,
            bot_two.traits.trailing_stop_loss as i128,
        ) + percent_difference(
            self.traits.stop_loss as i128,
            bot_two.traits.stop_loss as i128,
        ) + percent_difference(
            self.traits.minimum_holding_periods as i128,
            bot_two.traits.minimum_holding_periods as i128,
        ) + percent_difference(
            self.traits.maximum_holding_periods as i128,
            bot_two.traits.maximum_holding_periods as i128,
        ) + percent_difference(
            self.traits.percent_purchase as i128,
            bot_two.traits.percent_purchase as i128,
        ) + percent_difference(
            self.traits.target_sell_percentage as i128,
            bot_two.traits.target_sell_percentage as i128,
        );
        rha_div64(total, 9)
    }

    /// Breed with `bot_two`: uniform per-field crossover of the two
    /// genomes, then one round of mutation, carried by a fresh bot.
    pub fn breed(&self, bot_two: &Bot, config: &Config, id: u64) -> (r: Bot)
        ensures
            r.id == id,
            bred_from(r.traits, self.traits, bot_two.traits, *config),
            r.money == config.starting_money,
            r.current_holdings@ == Seq::<CurrentHolding>::empty(),
            r.sold_holdings@ == Seq::<SoldHolding>::empty(),
            r.fitness == 0,
            r.start_time is None,
            r.end_time is None,
    {
        let traits_one = self.traits;
        let traits_two = bot_two.traits;
        let mut bred = Traits {
            number_of_averaging_periods: if sample_coin(HALF_FRAC) {
                traits_one.number_of_averaging_periods
            } else {
                traits_two.number_of_averaging_periods
            },
            minimum_buy_momentum: if sample_coin(HALF_FRAC) {
                traits_one.minimum_buy_momentum
            } else {
                traits_two.minimum_buy_momentum
            },
            maximum_buy_momentum: if sample_coin(HALF_FRAC) {
                traits_one.maximum_buy_momentum
            } else {
                traits_two.maximum_buy_momentum
            },
            trailing_stop_loss: if sample_coin(HALF_FRAC) {
                traits_one.trailing_stop_loss
            } else {
                traits_two.trailing_stop_loss
            },
            stop_loss: if sample_coin(HALF_FRAC) {
                traits_one.stop_loss
            } else {
                traits_two.stop_loss
            },
            minimum_holding_periods: if sample_coin(HALF_FRAC) {
                traits_one.minimum_holding_periods
            } else {
                traits_two.minimum_holding_periods
            },
            maximum_holding_periods: if sample_coin(HALF_FRAC) {
                traits_one.maximum_holding_periods
            } else {
                traits_two.maximum_holding_periods
            },
            percent_purchase: if sample_coin(HALF_FRAC) {
                traits_one.percent_purchase
            } else {
                traits_two.percent_purchase
            },
            target_sell_percentage: if sample_coin(HALF_FRAC) {
                traits_one.target_sell_percentage
            } else {
                traits_two.target_sell_percentage
            },
        };
        let ghost crossed = bred;
        proof {
            assert(crossover_of(crossed, traits_one, traits_two));
        }
        bred.mutate(config);
        Bot {
            id,
            traits: bred,
            money: config.starting_money,
            current_holdings: Vec::<CurrentHolding>::new(),
            sold_holdings: Vec::<SoldHolding>::new(),
            fitness: 0,
            start_time: None,
            end_time: None,
        }
    }
}

/// An even coin, in `FRAC_SCALE` ticks.
const HALF_FRAC: i64 = 500_000;

/// The symmetric percent difference `|a - b| / ((a + b) / 2) * 100` of
/// two genome fields, in `PCT_SCALE` ticks; zero for equal fields.
pub open spec fn spec_percent_difference(a: int, b: int) -> int
    recommends
        a == b || a + b != 0,
{
    if a == b {
        0
    } else {
        rha(
            (vstd::math::abs(a - b) as int) * 2 * (HUNDRED_PCT as int),
            vstd::math::abs(a + b) as int,
        )
    }
}

/// Where the symmetric percent difference is defined for every genome
/// field pair: no pair of distinct values summing to zero.  The
/// integer-count fields cannot produce one, so only the signed fields
/// appear.
pub open spec fn hamming_defined(a: Traits, b: Traits) -> bool {
    &&& a.minimum_buy_momentum == b.minimum_buy_momentum || a.minimum_buy_momentum
        + b.minimum_buy_momentum != 0
    &&& a.maximum_buy_momentum == b.maximum_buy_momentum || a.maximum_buy_momentum
        + b.maximum_buy_momentum != 0
    &&& a.trailing_stop_loss == b.trailing_stop_loss || a.trailing_stop_loss + b.trailing_stop_loss
        != 0
    &&& a.stop_loss == b.stop_loss || a.stop_loss + b.stop_loss != 0
    &&& a.percent_purchase == b.percent_purchase || a.percent_purchase + b.percent_purchase != 0
    &&& a.target_sell_percentage == b.target_sell_percentage || a.target_sell_percentage
        + b.target_sell_percentage != 0
}

/// The average symmetric percent difference over the nine genome
/// fields, in `PCT_SCALE` ticks.
pub open spec fn spec_hamming(a: Traits, b: Traits) -> int
    recommends
        hamming_defined(a, b),
{
    rha64(
        spec_percent_difference(
            a.number_of_averaging_periods as int,
            b.number_of_averaging_periods as int,
        ) + spec_percent_difference(a.minimum_buy_momentum as int, b.minimum_buy_momentum as int)
            + spec_percent_difference(a.maximum_buy_momentum as int, b.maximum_buy_momentum as int)
            + spec_percent_difference(a.trailing_stop_loss as int, b.trailing_stop_loss as int)
            + spec_percent_difference(a.stop_loss as int, b.stop_loss as int)
            + spec_percent_difference(
            a.minimum_holding_periods as int,
            b.minimum_holding_periods as int,
        ) + spec_percent_difference(
            a.maximum_holding_periods as int,
            b.maximum_holding_periods as int,
        ) + spec_percent_difference(a.percent_purchase as int, b.percent_purchase as int)
            + spec_percent_difference(
            a.target_sell_percentage as int,
            b.target_sell_percentage as int,
        ),
        9,
    )
}

/// Largest value one field's symmetric percent difference can take.
const PD_CAP: i128 = 0x2_0000_0000_0000_0000 * 200_000_000;

/// One field's symmetric percent difference, executably.
fn percent_difference(a: i128, b: i128) -> (r: i128)
    requires
        -0x8000_0000_0000_0000 <= a <= 0x1_0000_0000_0000_0000,
        -0x8000_0000_0000_0000 <= b <= 0x1_0000_0000_0000_0000,
        a == b || a + b != 0,
    ensures
        r == spec_percent_difference(a as int, b as int),
        0 <= r <= PD_CAP,
{
    if a == b {
        0
    } else {
        let d: i128 = a - b;
        let s: i128 = a + b;
        let dm: i128 = if d < 0 {
            -d
        } else {
            d
        };
        let sm: i128 = if s < 0 {
            -s
        } else {
            s
        };
        proof {
            lemma_mul_bound(dm as int, 200_000_000, 0x2_0000_0000_0000_0000, 200_000_000);
        }
        rha_div(dm * 200_000_000, sm)
    }
}

/// Before the averaging window has filled, a period is a no-op: no
/// holding opens or closes, and the cash, fitness and end time are
/// untouched.
pub proof fn lemma_warmup_period_is_noop(
    b: BotModel,
    series: Seq<PriceData>,
    period: int,
    cfg: Config,
)
    requires
        period < b.traits.number_of_averaging_periods,
    ensures
        spec_run_period(b, series, period, cfg).money == b.money,
        spec_run_period(b, series, period, cfg).current_holdings == b.current_holdings,
        spec_run_period(b, series, period, cfg).sold_holdings == b.sold_holdings,
        spec_run_period(b, series, period, cfg).fitness == b.fitness,
        spec_run_period(b, series, period, cfg).end_time == b.end_time,
        spec_run_period(b, series, period, cfg).traits == b.traits,
        spec_run_period(b, series, period, cfg).id == b.id,
{
}

/// Whenever the period's high exceeds the holding's target price, the
/// take-profit reason wins over every other sell reason, even inside
/// the minimum holding window.
pub proof fn lemma_target_sell_priority(t: Traits, h: CurrentHolding, p: PriceData)
    requires
        h.targeted_sell_price < p.high,
    ensures
        spec_sell_reason(t, h, p) == Some(SellReason::TargetedSellPrice),
{
}

/// Inside the minimum holding window neither stop fires.
pub proof fn lemma_minimum_hold_protects_stops(t: Traits, h: CurrentHolding, p: PriceData)
    requires
        h.periods_held < t.minimum_holding_periods,
    ensures
        spec_sell_reason(t, h, p) != Some(SellReason::StopLoss),
        spec_sell_reason(t, h, p) != Some(SellReason::TrailingStopLoss),
{
}

/// Per-period maintenance never lowers the trailing stop.
pub proof fn lemma_trailing_stop_never_falls(h: CurrentHolding, price: int, t: Traits)
    ensures
        spec_update_holding(h, price, t).trailing_stop_loss >= h.trailing_stop_loss,
{
}

/// Every surviving element of `spec_kept_holdings` is an element of
/// the list it was filtered from.
proof fn lemma_kept_holdings_membership(hs: Seq<CurrentHolding>, t: Traits, p: PriceData)
    ensures
        forall|k: int|
            0 <= k < spec_kept_holdings(hs, t, p).len() ==> exists|j: int|
                0 <= j < hs.len() && #[trigger] spec_kept_holdings(hs, t, p)[k] == hs[j],
    decreases hs.len(),
{
    if hs.len() > 0 {
        lemma_kept_holdings_membership(hs.drop_last(), t, p);
        let kept = spec_kept_holdings(hs, t, p);
        let prefix = spec_kept_holdings(hs.drop_last(), t, p);
        assert forall|k: int| 0 <= k < kept.len() implies exists|j: int|
            0 <= j < hs.len() && #[trigger] kept[k] == hs[j] by {
            if k < prefix.len() {
                let j = choose|j: int| 0 <= j < hs.drop_last().len() && #[trigger] prefix[k]
                    == hs.drop_last()[j];
                assert(kept[k] == hs[j]);
            } else {
                assert(kept[k] == hs[hs.len() - 1]);
            }
        }
    }
}

/// Across one sell evaluation, every holding that survives is the
/// maintained image of a holding the bot already had, so its trailing
/// stop is at least that holding's: the trailing stop of an open
/// holding never decreases from period to period.
pub proof fn lemma_surviving_trailing_stops_ratchet(b: BotModel, cfg: Config, p: PriceData)
    ensures
        forall|k: int|
            0 <= k < spec_handle_sell(b, cfg, p).current_holdings.len() ==> exists|j: int|
                0 <= j < b.current_holdings.len()
                    && #[trigger] spec_handle_sell(b, cfg, p).current_holdings[k]
                    == spec_update_holding(b.current_holdings[j], p.close as int, b.traits)
                    && spec_handle_sell(b, cfg, p).current_holdings[k].trailing_stop_loss
                    >= b.current_holdings[j].trailing_stop_loss,
{
    let upd = spec_updated_holdings(b.current_holdings, p.close as int, b.traits);
    let kept = spec_handle_sell(b, cfg, p).current_holdings;
    lemma_kept_holdings_membership(upd, b.traits, p);
    assert forall|k: int| 0 <= k < kept.len() implies exists|j: int|
        0 <= j < b.current_holdings.len() && #[trigger] kept[k] == spec_update_holding(
        b.current_holdings[j],
        p.close as int,
        b.traits,
    ) && kept[k].trailing_stop_loss >= b.current_holdings[j].trailing_stop_loss by {
        let j = choose|j: int| 0 <= j < upd.len() && #[trigger] kept[k] == upd[j];
        assert(upd[j] == spec_update_holding(b.current_holdings[j], p.close as int, b.traits));
        lemma_trailing_stop_never_falls(b.current_holdings[j], p.close as int, b.traits);
    }
}

/// The transaction fee is between zero and the trade's value.
proof fn lemma_fee_within_value(value: int, fee_frac: int)
    requires
        0 <= value <= i64::MAX,
        0 <= fee_frac <= FRAC_SCALE,
    ensures
        0 <= spec_fee(value, fee_frac) <= value,
{
    assert(0 <= value * fee_frac <= value * (FRAC_SCALE as int)) by (nonlinear_arith)
        requires
            0 <= value,
            0 <= fee_frac <= FRAC_SCALE,
    ;
    crate::fixed::lemma_rha_monotone(value * fee_frac, value * (FRAC_SCALE as int), FRAC_SCALE as int);
    crate::fixed::lemma_rha_exact(value, FRAC_SCALE as int);
    crate::fixed::lemma_rha_nonneg_le(value * fee_frac, FRAC_SCALE as int);
}

/// Conservation across a round trip: a holding opened and then
/// force-sold with no price movement hands back exactly the invested
/// principal minus the buy fee and the sell fee, and the cash moves by
/// exactly `money_from_sell - money_spent` of its record.  Stated for
/// a bot with no other positions, within the exact operating range of
/// the fixed-point arithmetic.
pub proof fn lemma_round_trip_conserves_cash(
    b: BotModel,
    cfg: Config,
    cur: PriceData,
    prev: PriceData,
    fin: PriceData,
)
    requires
        b.current_holdings.len() == 0,
        b.sold_holdings.len() == 0,
        0 <= b.money <= 100_000_000_000_000,
        1000 <= cur.open <= 1_000_000_000_000_000,
        prev.open >= 1,
        fin.close == cur.open,
        0 <= cfg.transaction_fee_as_percentage <= FRAC_SCALE,
        0 <= b.traits.percent_purchase <= HUNDRED_PCT,
        spec_money_to_spend(b.money as int, b.traits.percent_purchase as int)
            >= cfg.minimum_purchase_size,
        spec_momentum_within(cur.open as int, prev.open as int, b.traits),
    ensures
        ({
            let sold = spec_sell_all(
                spec_handle_buy(b, cfg, cur, prev),
                fin,
                cfg.transaction_fee_as_percentage as int,
            );
            &&& sold.sold_holdings.len() == 1
            &&& sold.money == b.money - sold.sold_holdings[0].money_spent
                + sold.sold_holdings[0].money_from_sell
            &&& sold.money == b.money - sold.sold_holdings[0].buy_fee
                - sold.sold_holdings[0].sell_fee
        }),
{
    let pp = b.traits.percent_purchase as int;
    let fee_frac = cfg.transaction_fee_as_percentage as int;
    let money = b.money as int;
    let price = cur.open as int;

    let mts_raw = rha(money * pp, HUNDRED_PCT as int);
    assert(0 <= money * pp <= money * (HUNDRED_PCT as int)) by (nonlinear_arith)
        requires
            0 <= money,
            0 <= pp <= HUNDRED_PCT,
    ;
    crate::fixed::lemma_rha_monotone(money * pp, money * (HUNDRED_PCT as int), HUNDRED_PCT as int);
    crate::fixed::lemma_rha_exact(money, HUNDRED_PCT as int);
    crate::fixed::lemma_rha_nonneg_le(money * pp, HUNDRED_PCT as int);
    assert(0 <= mts_raw <= money);
    let mts = spec_money_to_spend(money, pp);
    assert(mts == mts_raw);

    let amount = spec_amount_to_buy(mts, price);
    crate::fixed::lemma_rha_nonneg_le(mts * (AMOUNT_SCALE as int), price);
    assert(mts * (AMOUNT_SCALE as int) == mts * 10000);
    assert(0 <= amount <= mts * 10000);

    let value = spec_trade_value(amount, price);
    crate::fixed::lemma_rha_times_d(mts * (AMOUNT_SCALE as int), price);
    assert(rha(mts * (AMOUNT_SCALE as int), price) * price <= mts * (AMOUNT_SCALE as int) + price);
    assert(amount * price <= mts * (AMOUNT_SCALE as int) + price);
    assert(amount * price >= 0) by (nonlinear_arith)
        requires
            amount >= 0,
            price >= 1,
    ;
    crate::fixed::lemma_rha_nonneg_le(amount * price, AMOUNT_SCALE as int);
    assert(0 <= value <= 1_000_001_000_000_000_000);

    let fee = spec_fee(value, fee_frac);
    lemma_fee_within_value(value, fee_frac);
    let money_spent = sat64(value + fee);
    assert(money_spent == value + fee);

    let b2 = spec_handle_buy(b, cfg, cur, prev);
    let h = spec_new_holding(price, cur.time, amount, money_spent, Asset::ETH, b.traits, fee);
    assert(b2.current_holdings =~= seq![h]);
    assert(b2.money == money - money_spent);

    let hu = spec_update_holding(h, fin.close as int, b.traits);
    assert(hu.amount == h.amount && hu.money_spent == h.money_spent && hu.buy_fee == h.buy_fee
        && hu.targeted_sell_price == h.targeted_sell_price);
    let upd = spec_updated_holdings(b2.current_holdings, fin.close as int, b2.traits);
    assert(upd =~= seq![hu]);

    let sale = spec_sale(hu, SellReason::Forced, fin, fee_frac);
    assert(spec_trade_value(hu.amount as int, fin.close as int) == value);
    assert(sale.sell_fee == fee);
    assert(sale.money_from_sell as int == sat64(value - fee));
    assert(sale.money_from_sell == value - fee);
    assert(sale.money_spent == money_spent);
    assert(sale.buy_fee == fee);

    let b3 = spec_sell_all(b2, fin, fee_frac);
    assert(upd.drop_last() =~= Seq::<CurrentHolding>::empty());
    assert(upd.last() == hu);
    assert(spec_money_after_forced(b2.money as int, upd.drop_last(), fin, fee_frac)
        == b2.money as int);
    assert(spec_money_after_forced(b2.money as int, upd, fin, fee_frac) == sat64(
        b2.money + sale.money_from_sell,
    ));
    assert(b3.money == money - money_spent + (value - fee));
    assert(spec_forced_sales(upd, fin, fee_frac) =~= seq![sale]);
    assert(b3.sold_holdings =~= seq![sale]);
    assert(b3.sold_holdings.len() == 1);
    assert(b3.sold_holdings[0] == sale);
}

/// Identical genomes are at hamming distance zero.
pub proof fn lemma_hamming_identical(t: Traits)
    ensures
        spec_hamming(t, t) == 0,
{
    assert(spec_percent_difference(
        t.number_of_averaging_periods as int,
        t.number_of_averaging_periods as int,
    ) == 0);
    assert(spec_hamming(t, t) == rha64(0, 9));
    assert(rha(0, 9) == 0) by {
        vstd::arithmetic::div_mod::lemma_basic_div(9, 18);
    }
}

} // verus!

