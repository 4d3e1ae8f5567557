//! Open and closed position records.

use vstd::prelude::*;

use crate::asset::Asset;
use crate::bot::traits::Traits;
use crate::fixed::{rha, rha64, sat64, rha_div64, sat_to_i64, sat_sub, HUNDRED_PCT};

verus! {

/// Why a holding was closed.
#[derive(Copy, Clone, PartialEq, Eq, Structural, Hash, Debug)]
pub enum SellReason {
    StopLoss,
    TrailingStopLoss,
    MaxPeriodsHeld,
    TargetedSellPrice,
    Forced,
}

/// An open position: one purchase, tracked until it is sold.
#[derive(Copy, Clone, PartialEq, Eq, Structural, Debug)]
pub struct CurrentHolding {
    pub asset: Asset,
    pub purchase_time: u64,
    /// In `AMOUNT_SCALE` lots.
    pub amount: i64,
    /// Purchase cost including the buy fee, in money ticks.
    pub money_spent: i64,
    pub purchase_price: i64,
    /// Absolute price at which the stop-loss fires.
    pub stop_loss: i64,
    /// Absolute trailing-stop price; only ever ratchets upward.
    pub trailing_stop_loss: i64,
    pub periods_held: u64,
    pub buy_fee: i64,
    /// Absolute take-profit price, fixed at purchase time.
    pub targeted_sell_price: i64,
}

/// `price` reduced by `pct` percent: where a stop-loss fires.
pub open spec fn spec_stop_price(price: int, pct: int) -> int {
    sat64(price - rha(price * pct, HUNDRED_PCT as int))
}

/// `price` raised by `pct` percent: the take-profit target.
pub open spec fn spec_target_price(price: int, pct: int) -> int {
    sat64(price + rha(price * pct, HUNDRED_PCT as int))
}

/// Percent gained over the money spent, in `PCT_SCALE` ticks; zero when
/// nothing was spent.
pub open spec fn spec_percent_gained(money_spent: int, money_from_sell: int) -> int {
    if money_spent <= 0 {
        0
    } else {
        rha64((money_from_sell - money_spent) * (HUNDRED_PCT as int), money_spent)
    }
}

fn calculate_stop_loss(price: i64, stop_loss_percentage: i64) -> (r: i64)
    ensures
        r as int == spec_stop_price(price as int, stop_loss_percentage as int),
{
    let cut: i128 = crate::fixed::rha_div(
        crate::fixed::mul_i64(price, stop_loss_percentage),
        HUNDRED_PCT as i128,
    );
    sat_to_i64((price as i128) - cut)
}

fn calculate_targeted_sell_price(purchase_price: i64, target_sell_percentage: i64) -> (r: i64)
    ensures
        r as int == spec_target_price(purchase_price as int, target_sell_percentage as int),
{
    let rise: i128 = crate::fixed::rha_div(
        crate::fixed::mul_i64(purchase_price, target_sell_percentage),
        HUNDRED_PCT as i128,
    );
    sat_to_i64((purchase_price as i128) + rise)
}

fn calculate_percent_gained(money_spent: i64, money_from_sell: i64) -> (r: i64)
    ensures
        r as int == spec_percent_gained(money_spent as int, money_from_sell as int),
{
    if money_spent <= 0 {
        0
    } else {
        let gain: i128 = (money_from_sell as i128) - (money_spent as i128);
        proof {
            crate::fixed::lemma_mul_bound(
                gain as int,
                HUNDRED_PCT as int,
                0x1_0000_0000_0000_0000,
                HUNDRED_PCT as int,
            );
        }
        rha_div64(gain * (HUNDRED_PCT as i128), money_spent as i128)
    }
}

/// The open-position record a purchase creates.
pub open spec fn spec_new_holding(
    purchase_price: int,
    purchase_time: u64,
    amount: int,
    money_spent: int,
    asset: Asset,
    t: Traits,
    buy_fee: int,
) -> CurrentHolding {
    CurrentHolding {
        asset,
        purchase_time,
        amount: amount as i64,
        money_spent: money_spent as i64,
        purchase_price: purchase_price as i64,
        stop_loss: spec_stop_price(purchase_price, t.stop_loss as int) as i64,
        trailing_stop_loss: spec_stop_price(purchase_price, t.trailing_stop_loss as int) as i64,
        periods_held: 0,
        buy_fee: buy_fee as i64,
        targeted_sell_price: spec_target_price(purchase_price, t.target_sell_percentage as int)
            as i64,
    }
}

/// One period of maintenance: the trailing stop ratchets up to the
/// stop price computed from the new close, never down, and the age of
/// the holding grows by one period.
pub open spec fn spec_update_holding(h: CurrentHolding, current_price: int, t: Traits)
    -> CurrentHolding {
    let candidate = spec_stop_price(current_price, t.trailing_stop_loss as int);
    CurrentHolding {
        trailing_stop_loss: if candidate > h.trailing_stop_loss {
            candidate as i64
        } else {
            h.trailing_stop_loss
        },
        periods_held: if h.periods_held < u64::MAX {
            (h.periods_held + 1) as u64
        } else {
            h.periods_held
        },
        ..h
    }
}

impl CurrentHolding {
    pub fn new(
        purchase_price: i64,
        purchase_time: u64,
        amount: i64,
        money_spent: i64,
        asset: Asset,
        t: &Traits,
        buy_fee: i64,
    ) -> (r: CurrentHolding)
        ensures
            r == spec_new_holding(
                purchase_price as int,
                purchase_time,
                amount as int,
                money_spent as int,
                asset,
                *t,
                buy_fee as int,
            ),
    {
        CurrentHolding {
            asset,
            amount,
            purchase_time,
            money_spent,
            purchase_price,
            stop_loss: calculate_stop_loss(purchase_price, t.stop_loss),
            trailing_stop_loss: calculate_stop_loss(purchase_price, t.trailing_stop_loss),
            periods_held: 0,
            buy_fee,
            targeted_sell_price: calculate_targeted_sell_price(
                purchase_price,
                t.target_sell_percentage,
            ),
        }
    }

    pub fn update_for_new_period(&mut self, current_price: i64, t: &Traits)
        ensures
            *final(self) == spec_update_holding(*old(self), current_price as int, *t),
            final(self).trailing_stop_loss >= old(self).trailing_stop_loss,
    {
        let trailing_stop_loss = calculate_stop_loss(current_price, t.trailing_stop_loss);
        if trailing_stop_loss > self.trailing_stop_loss {
            self.trailing_stop_loss = trailing_stop_loss;
        }
        if self.periods_held < u64::MAX {
            self.periods_held = self.periods_held + 1;
        }
    }
}

/// A closed position: the holding's entry data joined with its exit.
#[derive(Copy, Clone, PartialEq, Eq, Structural, Debug)]
pub struct SoldHolding {
    pub asset: Asset,
    pub amount: i64,
    pub purchase_time: u64,
    pub sell_time: u64,
    pub purchase_price: i64,
    pub money_spent: i64,
    pub periods_held: u64,
    pub sell_reason: SellReason,
    pub sell_price: i64,
    /// In `PCT_SCALE` ticks.
    pub percent_gained: i64,
    pub amount_gained: i64,
    pub money_from_sell: i64,
    pub stop_loss: i64,
    pub trailing_stop_loss: i64,
    pub win: bool,
    pub buy_fee: i64,
    pub sell_fee: i64,
    pub targeted_sell_price: i64,
}

/// The closed-position record a sale creates.
pub open spec fn spec_sold_holding(
    h: CurrentHolding,
    sell_price: int,
    money_from_sell: int,
    sell_fee: int,
    sell_reason: SellReason,
    sell_time: u64,
) -> SoldHolding {
    SoldHolding {
        asset: h.asset,
        purchase_time: h.purchase_time,
        sell_time,
        amount: h.amount,
        purchase_price: h.purchase_price,
        money_spent: h.money_spent,
        periods_held: h.periods_held,
        sell_reason,
        sell_price: sell_price as i64,
        stop_loss: h.stop_loss,
        trailing_stop_loss: h.trailing_stop_loss,
        money_from_sell: money_from_sell as i64,
        percent_gained: spec_percent_gained(h.money_spent as int, money_from_sell) as i64,
        amount_gained: sat64(money_from_sell - h.money_spent) as i64,
        win: money_from_sell - h.money_spent > 0,
        buy_fee: h.buy_fee,
        sell_fee: sell_fee as i64,
        targeted_sell_price: h.targeted_sell_price,
    }
}

impl SoldHolding {
    pub fn new(
        holding_sold: &CurrentHolding,
        sell_price: i64,
        money_from_sell: i64,
        sell_fee: i64,
        sell_reason: SellReason,
        sell_time: u64,
    ) -> (r: SoldHolding)
        ensures
            r == spec_sold_holding(
                *holding_sold,
                sell_price as int,
                money_from_sell as int,
                sell_fee as int,
                sell_reason,
                sell_time,
            ),
    {
        let amount_gained = sat_sub(money_from_sell, holding_sold.money_spent);
        SoldHolding {
            asset: holding_sold.asset,
            purchase_time: holding_sold.purchase_time,
            sell_time,
            amount: holding_sold.amount,
            purchase_price: holding_sold.purchase_price,
            money_spent: holding_sold.money_spent,
            periods_held: holding_sold.periods_held,
            sell_reason,
            sell_price,
            stop_loss: holding_sold.stop_loss,
            trailing_stop_loss: holding_sold.trailing_stop_loss,
            money_from_sell,
            percent_gained: calculate_percent_gained(holding_sold.money_spent, money_from_sell),
            amount_gained,
            win: amount_gained > 0,
            buy_fee: holding_sold.buy_fee,
            sell_fee,
            targeted_sell_price: holding_sold.targeted_sell_price,
        }
    }
}

} // verus!
