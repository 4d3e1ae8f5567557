//! The assets a holding can be denominated in.

use vstd::prelude::*;

verus! {

#[derive(Copy, Clone, PartialEq, Eq, Structural, Hash, Debug)]
pub enum Asset {
    BTC,
    ETH,
    USD,
}

impl Asset {
    /// Every asset, in declaration order.
    pub fn iterator() -> (r: Vec<Asset>)
        ensures
            r@ == seq![Asset::BTC, Asset::ETH, Asset::USD],
    {
        let mut assets: Vec<Asset> = Vec::new();
        assets.push(Asset::BTC);
        assets.push(Asset::ETH);
        assets.push(Asset::USD);
        proof {
            assert(assets@ =~= seq![Asset::BTC, Asset::ETH, Asset::USD]);
        }
        assets
    }
}

} // verus!
