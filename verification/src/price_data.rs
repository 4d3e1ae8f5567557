//! One period of the historical price series.

use vstd::prelude::*;

verus! {

/// A single trading period.  Prices are in `MONEY_SCALE` ticks per
/// currency unit; `time` is a unix timestamp in seconds.
#[derive(Copy, Clone, PartialEq, Eq, Structural, Debug)]
pub struct PriceData {
    pub time: u64,
    pub low: i64,
    pub high: i64,
    pub open: i64,
    pub close: i64,
    pub volume: i64,
}

/// The engine divides by open prices when it computes momentum and
/// purchase amounts, so a usable series has strictly positive opens.
pub open spec fn series_wf(s: Seq<PriceData>) -> bool {
    forall|i: int| 0 <= i < s.len() ==> (#[trigger] s[i]).open >= 1
}

} // verus!
