//! Assets and what is known about them on the market.

use vstd::prelude::*;
use crate::chain::AssetId;

verus! {

/// The standard under which an asset is issued.
#[derive(Clone, Copy, Debug, PartialEq, Eq, Structural, Hash)]
pub enum AssetType {
    Native,
    Erc20,
    Bep2,
    Bep20,
    Spl,
    Arbitrum,
    Trc20,
}

#[derive(Debug, PartialEq, Eq)]
pub struct Asset {
    pub id: AssetId,
    pub name: String,
    pub symbol: String,
    pub decimals: i32,
    pub asset_type: AssetType,
}

/// The rank given to an asset.
#[derive(Clone, Copy, Debug, PartialEq, Eq, Structural, Hash)]
pub struct AssetScore {
    pub rank: i32,
}

/// A price and its change over a day, both as decimal text.
#[derive(Debug, PartialEq, Eq)]
pub struct Price {
    pub price: String,
    pub price_change_percentage_24h: String,
}

/// Market figures of an asset, each as decimal text where it is known.
#[derive(Debug, PartialEq, Eq)]
pub struct AssetMarket {
    pub market_cap: Option<String>,
    pub market_cap_rank: Option<i32>,
    pub total_volume: Option<String>,
    pub circulating_supply: Option<String>,
    pub total_supply: Option<String>,
    pub max_supply: Option<String>,
}

} // verus!
