//! Chain identifiers and asset identifiers.

use vstd::prelude::*;
use vstd::string::StringExecFns;

verus! {

/// A blockchain network tracked by the indexer.
#[derive(Clone, Copy, Debug, PartialEq, Eq, Structural, Hash)]
pub enum Chain {
    Ethereum,
    SmartChain,
    Polygon,
    Arbitrum,
    Optimism,
    Base,
    AvalancheC,
    Fantom,
    Gnosis,
    ZkSync,
    Near,
    Sui,
}

impl Chain {
    /// The stable lower-case name of the chain, as it appears in identifiers.
    pub open spec fn name(self) -> Seq<char> {
        match self {
            Chain::Ethereum => "ethereum"@,
            Chain::SmartChain => "smartchain"@,
            Chain::Polygon => "polygon"@,
            Chain::Arbitrum => "arbitrum"@,
            Chain::Optimism => "optimism"@,
            Chain::Base => "base"@,
            Chain::AvalancheC => "avalanchec"@,
            Chain::Fantom => "fantom"@,
            Chain::Gnosis => "gnosis"@,
            Chain::ZkSync => "zksync"@,
            Chain::Near => "near"@,
            Chain::Sui => "sui"@,
        }
    }

    /// The coin type under which the chain reports balance changes of its
    /// native coin, for the chains that report one.
    pub open spec fn denom(self) -> Option<Seq<char>> {
        match self {
            Chain::Sui => Some("0x2::sui::SUI"@),
            _ => None,
        }
    }

    pub fn as_str(&self) -> (name: &'static str)
        ensures
            name@ == self.name(),
    {
        match self {
            Chain::Ethereum => "ethereum",
            Chain::SmartChain => "smartchain",
            Chain::Polygon => "polygon",
            Chain::Arbitrum => "arbitrum",
            Chain::Optimism => "optimism",
            Chain::Base => "base",
            Chain::AvalancheC => "avalanchec",
            Chain::Fantom => "fantom",
            Chain::Gnosis => "gnosis",
            Chain::ZkSync => "zksync",
            Chain::Near => "near",
            Chain::Sui => "sui",
        }
    }

    pub fn as_denom(&self) -> (denom: Option<&'static str>)
        ensures
            match denom {
                Some(d) => self.denom() == Some(d@),
                None => self.denom() is None,
            },
    {
        match self {
            Chain::Sui => Some("0x2::sui::SUI"),
            _ => None,
        }
    }

    /// The identifier of the chain's native asset.
    pub fn as_asset_id(&self) -> (id: AssetId)
        ensures
            id@ == (AssetIdView { chain: *self, token_id: None }),
    {
        AssetId { chain: *self, token_id: None }
    }
}

/// An asset on a chain: the native coin when `token_id` is `None`, else the
/// token with that contract reference.
#[derive(Debug, PartialEq, Eq)]
pub struct AssetId {
    pub chain: Chain,
    pub token_id: Option<String>,
}

/// What an `AssetId` stands for in contracts.
pub struct AssetIdView {
    pub chain: Chain,
    pub token_id: Option<Seq<char>>,
}

impl AssetIdView {
    /// The textual form: the chain's name, followed for a token by `_` and
    /// the token reference.
    pub open spec fn text(self) -> Seq<char> {
        match self.token_id {
            Some(token) => self.chain.name() + seq!['_'] + token,
            None => self.chain.name(),
        }
    }
}

impl View for AssetId {
    type V = AssetIdView;

    open spec fn view(&self) -> AssetIdView {
        AssetIdView {
            chain: self.chain,
            token_id: match self.token_id {
                Some(token) => Some(token@),
                None => None,
            },
        }
    }
}

impl Clone for AssetId {
    fn clone(&self) -> (copy: Self)
        ensures
            copy == *self,
    {
        AssetId {
            chain: self.chain,
            token_id: match &self.token_id {
                Some(token) => Some(token.clone()),
                None => None,
            },
        }
    }
}

impl AssetId {
    pub fn from(chain: Chain, token_id: Option<String>) -> (id: AssetId)
        ensures
            id.chain == chain,
            id.token_id == token_id,
    {
        AssetId { chain, token_id }
    }

    pub fn is_native(&self) -> (native: bool)
        ensures
            native == (self@.token_id is None),
    {
        self.token_id.is_none()
    }

    pub fn to_string(&self) -> (text: String)
        ensures
            text@ == self@.text(),
    {
        match &self.token_id {
            Some(token) => {
                let mut text = String::from_str(self.chain.as_str());
                proof {
                    reveal_strlit("_");
                }
                text.append("_");
                text.append(token.as_str());
                assert(text@ == self.chain.name() + seq!['_'] + token@) by {
                    assert("_"@ =~= seq!['_']);
                }
                text
            },
            None => String::from_str(self.chain.as_str()),
        }
    }
}

} // verus!
