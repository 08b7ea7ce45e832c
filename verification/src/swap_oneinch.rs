//! The rules of the 1inch swap adapter that need no network.

use vstd::prelude::*;
use vstd::string::StringExecFns;
use crate::chain::{AssetId, AssetIdView, Chain};

verus! {

/// The name under which quotes of this adapter are reported.
pub fn provider_name() -> (name: &'static str)
    ensures
        name@ == "1inch"@,
{
    "1inch"
}

/// The address that stands for the native coin of a chain.
pub fn native_address() -> (address: &'static str)
    ensures
        address@ == "0xeeeeeeeeeeeeeeeeeeeeeeeeeeeeeeeeeeeeeeee"@,
{
    "0xeeeeeeeeeeeeeeeeeeeeeeeeeeeeeeeeeeeeeeee"
}

/// The version of the aggregator's interface.
pub fn version() -> (version: &'static str)
    ensures
        version@ == "v5.2"@,
{
    "v5.2"
}

/// The chains on which the aggregator swaps.
pub open spec fn supported_chains() -> Seq<Chain> {
    seq![
        Chain::Ethereum,
        Chain::Arbitrum,
        Chain::Optimism,
        Chain::Polygon,
        Chain::SmartChain,
        Chain::AvalancheC,
        Chain::Base,
        Chain::Fantom,
        Chain::Gnosis,
        Chain::ZkSync,
    ]
}

/// The address by which the aggregator knows an asset: that of the native
/// coin for a native asset, else the token's own.
pub open spec fn token_address_of(asset: AssetIdView) -> Seq<char> {
    match asset.token_id {
        Some(token) => token,
        None => "0xeeeeeeeeeeeeeeeeeeeeeeeeeeeeeeeeeeeeeeee"@,
    }
}

/// The address of the token list of a chain.
pub open spec fn tokenlist_url_of(api_url: Seq<char>, chain_id: Seq<char>) -> Seq<char> {
    api_url + "/token/v1.2/"@ + chain_id
}

/// The address at which a quote, or with `data` the swap itself, is asked
/// for.
pub open spec fn swap_url_of(api_url: Seq<char>, network_id: Seq<char>, data: bool) -> Seq<char> {
    api_url + "/swap/"@ + "v5.2"@ + "/"@ + network_id + (if data {
        "/swap"@
    } else {
        "/quote"@
    })
}

/// The tokens among `tokens` that have a checksummed address, as assets of
/// `chain`, in order.
pub open spec fn token_assets(chain: Chain, tokens: Seq<Option<String>>) -> Seq<AssetIdView>
    decreases tokens.len(),
{
    if tokens.len() == 0 {
        Seq::empty()
    } else {
        let before = token_assets(chain, tokens.drop_last());
        match tokens.last() {
            Some(address) => before.push(AssetIdView { chain, token_id: Some(address@) }),
            None => before,
        }
    }
}

pub open spec fn asset_views(assets: Seq<AssetId>) -> Seq<AssetIdView> {
    assets.map_values(|a: AssetId| a@)
}

/// The chains on which the aggregator swaps.
pub fn chains() -> (chains: Vec<Chain>)
    ensures
        chains@ == supported_chains(),
{
    let mut chains: Vec<Chain> = Vec::new();
    chains.push(Chain::Ethereum);
    chains.push(Chain::Arbitrum);
    chains.push(Chain::Optimism);
    chains.push(Chain::Polygon);
    chains.push(Chain::SmartChain);
    chains.push(Chain::AvalancheC);
    chains.push(Chain::Base);
    chains.push(Chain::Fantom);
    chains.push(Chain::Gnosis);
    chains.push(Chain::ZkSync);
    assert(chains@ =~= supported_chains());
    chains
}

/// The address by which the aggregator knows `asset`.
pub fn token_address(asset: &AssetId) -> (address: String)
    ensures
        address@ == token_address_of(asset@),
{
    match &asset.token_id {
        Some(token) => token.clone(),
        None => String::from_str(native_address()),
    }
}

/// The address of the token list of the chain with `chain_id`.
pub fn tokenlist_url(api_url: &str, chain_id: &str) -> (url: String)
    ensures
        url@ == tokenlist_url_of(api_url@, chain_id@),
{
    let mut url = String::from_str(api_url);
    url.append("/token/v1.2/");
    url.append(chain_id);
    url
}

/// The address at which a quote is asked for on the network with
/// `network_id`.
pub fn quote_url(api_url: &str, network_id: &str) -> (url: String)
    ensures
        url@ == swap_url_of(api_url@, network_id@, false),
{
    let mut url = String::from_str(api_url);
    url.append("/swap/");
    url.append(version());
    url.append("/");
    url.append(network_id);
    url.append("/quote");
    url
}

/// The address at which a swap with its data is asked for on the network
/// with `network_id`.
pub fn swap_url(api_url: &str, network_id: &str) -> (url: String)
    ensures
        url@ == swap_url_of(api_url@, network_id@, true),
{
    let mut url = String::from_str(api_url);
    url.append("/swap/");
    url.append(version());
    url.append("/");
    url.append(network_id);
    url.append("/swap");
    url
}

/// The assets of `chain` for a token list, given for each token its
/// checksummed address, or `None` where the token's key is no address.
pub fn get_asset_ids_for_tokenlist(chain: Chain, tokens: Vec<Option<String>>) -> (assets: Vec<
    AssetId,
>)
    ensures
        asset_views(assets@) == token_assets(chain, tokens@),
{
    let mut assets: Vec<AssetId> = Vec::new();
    let mut i: usize = 0;
    assert(asset_views(assets@) =~= token_assets(chain, tokens@.take(0)));
    while i < tokens.len()
        invariant
            0 <= i <= tokens.len(),
            asset_views(assets@) == token_assets(chain, tokens@.take(i as int)),
        decreases tokens.len() - i,
    {
        let ghost before = assets@;
        assert(tokens@.take(i + 1).drop_last() =~= tokens@.take(i as int));
        match &tokens[i] {
            Some(address) => {
                let asset = AssetId { chain, token_id: Some(address.clone()) };
                assets.push(asset);
                assert(asset_views(assets@) =~= asset_views(before).push(
                    AssetIdView { chain, token_id: Some(address@) },
                ));
            },
            None => {},
        }
        i = i + 1;
    }
    assert(tokens@.take(i as int) =~= tokens@);
    assets
}

} // verus!
