//! What fiat providers have in common.

use vstd::prelude::*;
use crate::chain::Chain;

verus! {

/// An asset that a fiat provider sells.
#[derive(Debug, PartialEq, Eq)]
pub struct FiatProviderAsset {
    pub id: String,
    pub chain: Option<Chain>,
    pub token_id: Option<String>,
    pub symbol: String,
    pub network: Option<String>,
    pub enabled: bool,
}

/// How far a purchase has come.
#[derive(Clone, Copy, Debug, PartialEq, Eq, Structural, Hash)]
pub enum FiatTransactionStatus {
    Complete,
    Pending,
    Failed,
    Unknown,
}

/// Why no quote can be asked for.
#[derive(Clone, Copy, Debug, PartialEq, Eq, Structural, Hash)]
pub enum FiatError {
    /// The provider does not sell the asset.
    AssetNotSupported,
}

impl FiatError {
    pub fn to_string(&self) -> (text: String)
        ensures
            text@ == "asset not supported"@,
    {
        match self {
            FiatError::AssetNotSupported => "asset not supported".to_string(),
        }
    }
}

} // verus!
