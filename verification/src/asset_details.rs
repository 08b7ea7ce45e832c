//! Descriptive details of an asset.

use vstd::prelude::*;
use crate::asset::{Asset, AssetMarket, AssetScore, Price};

verus! {

/// Everything known of an asset.
#[derive(Debug, PartialEq, Eq)]
pub struct AssetFull {
    pub asset: Asset,
    pub details: Option<AssetDetails>,
    pub price: Option<Price>,
    pub market: Option<AssetMarket>,
    pub score: AssetScore,
}

/// Where an asset is described, and what can be done with it.
#[derive(Debug, PartialEq, Eq)]
pub struct AssetDetails {
    pub links: AssetLinks,
    pub is_buyable: bool,
    pub is_sellable: bool,
    pub is_swapable: bool,
    pub is_stakeable: bool,
}

impl AssetDetails {
    /// The details of an asset of which only the links are known: it can
    /// be neither bought, sold, swapped nor staked.
    pub fn from_links(links: AssetLinks) -> (details: AssetDetails)
        ensures
            details.links == links,
            !details.is_buyable,
            !details.is_sellable,
            !details.is_swapable,
            !details.is_stakeable,
    {
        AssetDetails {
            links,
            is_buyable: false,
            is_sellable: false,
            is_swapable: false,
            is_stakeable: false,
        }
    }
}

/// The places where an asset is described.
#[derive(Debug, PartialEq, Eq)]
pub struct AssetLinks {
    pub homepage: Option<String>,
    pub explorer: Option<String>,
    pub twitter: Option<String>,
    pub telegram: Option<String>,
    pub github: Option<String>,
    pub youtube: Option<String>,
    pub facebook: Option<String>,
    pub reddit: Option<String>,
    pub coingecko: Option<String>,
    pub coinmarketcap: Option<String>,
    pub discord: Option<String>,
}

#[derive(Debug, PartialEq, Eq)]
pub struct AssetDetailsInfo {
    pub details: AssetDetails,
    pub market: AssetMarket,
}

} // verus!
