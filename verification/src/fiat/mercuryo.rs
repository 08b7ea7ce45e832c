//! The rules of the Mercuryo adapter that need no network: how an asset
//! is described and how the signed address of the purchase page is made.

use vstd::prelude::*;
use vstd::string::{StringExecFns, StringSliceAdditionalSpecFns};
use vstd::utf8::encode_utf8;
use sha2::Digest;
use crate::chain::Chain;
use crate::fiat::model::FiatProviderAsset;
use crate::transaction::text_of;

verus! {

/// An asset as the provider lists it.
#[derive(Debug, PartialEq, Eq)]
pub struct Asset {
    pub currency: String,
    pub network: String,
    pub contract: String,
}

/// A quote of the provider; the amount in fiat is held as decimal text.
#[derive(Debug, PartialEq, Eq)]
pub struct Quote {
    pub amount: String,
    pub currency: String,
    pub fiat_amount: String,
}

/// The SHA-512 digest of a sequence of bytes.
pub uninterp spec fn sha512_digest(data: Seq<u8>) -> Seq<u8>;

/// The address that `url` makes of `base` and the pairs of a query, or
/// none where `base` is no address.
pub uninterp spec fn url_with_query(base: Seq<char>, pairs: Seq<(Seq<char>, Seq<char>)>) -> Option<
    Seq<char>,
>;

/// The lower-case hexadecimal digit of `nibble`.
pub open spec fn hex_char(nibble: int) -> char {
    if nibble < 10 {
        (('0' as u8) + nibble) as char
    } else {
        (('a' as u8) + nibble - 10) as char
    }
}

/// The bytes as lower-case hexadecimal digits, two for each byte, the high
/// half first.
pub open spec fn hex_text(data: Seq<u8>) -> Seq<char> {
    Seq::new(
        2 * data.len(),
        |i: int|
            if i % 2 == 0 {
                hex_char(data[i / 2] as int / 16)
            } else {
                hex_char(data[i / 2] as int % 16)
            },
    )
}

pub open spec fn pair_views(pairs: Seq<(String, String)>) -> Seq<(Seq<char>, Seq<char>)> {
    pairs.map_values(|p: (String, String)| (p.0@, p.1@))
}

/// The most bytes that the pairs can take in a query, where every byte is
/// escaped: three for each byte, and two to separate.
pub open spec fn query_bound(pairs: Seq<(Seq<char>, Seq<char>)>) -> int
    decreases pairs.len(),
{
    if pairs.len() == 0 {
        0
    } else {
        query_bound(pairs.drop_last()) + 3 * encode_utf8(pairs.last().0).len() + 3 * encode_utf8(
            pairs.last().1,
        ).len() + 2
    }
}

/// Whether the address made of `base` and the pairs stays within what `url`
/// can hold, however much of it has to be escaped or mapped. Parsing makes
/// three bytes of a byte of the path that it escapes, and lengthens a host
/// that it maps to ASCII; sixty-four bytes for each byte of `base` is far
/// above both. One byte each is for the `/` and the `?` that may be added.
pub open spec fn fits_in_url(base: Seq<char>, pairs: Seq<(Seq<char>, Seq<char>)>) -> bool {
    64 * encode_utf8(base).len() + 2 + query_bound(pairs) <= u32::MAX
}

/// `sha2::Sha512::digest`: the digest of the bytes, which is 64 bytes long.
#[verifier::external_body]
fn sha512(data: &[u8]) -> (digest: Vec<u8>)
    ensures
        digest@ == sha512_digest(data@),
        digest@.len() == 64,
{
    sha2::Sha512::digest(data).to_vec()
}

/// `hex::encode`: each byte as two lower-case hexadecimal digits.
#[verifier::external_body]
fn hex_encode(data: &Vec<u8>) -> (text: String)
    ensures
        text@ == hex_text(data@),
{
    hex::encode(data)
}

/// `uuid::Uuid::new_v4`, as text. The identifier is random: nothing is
/// promised of it. `uuid` panics where the system gives it no random bytes.
#[verifier::external_body]
fn new_uuid() -> (id: String) {
    uuid::Uuid::new_v4().to_string()
}

/// `url::Url::parse`, then `extend_pairs` on `query_pairs_mut`, then
/// `as_str`: the address with the pairs appended to its query, where `base`
/// parses. `url` holds positions in 32 bits. Parsing fails beyond them up to
/// the path, but does not look at the end of a path that ends the text, and
/// `query_pairs_mut` panics where the parsed address is longer. So the
/// address has to stay below that as parsed, not as handed in.
#[verifier::external_body]
fn url_with_pairs(base: &str, pairs: &Vec<(String, String)>) -> (address: Option<String>)
    requires
        fits_in_url(base@, pair_views(pairs@)),
    ensures
        text_of(address) == url_with_query(base@, pair_views(pairs@)),
{
    let mut url = match url::Url::parse(base) {
        Ok(url) => url,
        Err(_) => return None,
    };
    url.query_pairs_mut().extend_pairs(pairs.iter());
    Some(url.as_str().to_string())
}

/// The page on which a purchase is made.
pub fn redirect_base() -> (base: &'static str)
    ensures
        base@ == "https://exchange.mercuryo.io"@,
{
    "https://exchange.mercuryo.io"
}

/// The base of the provider's programming interface.
pub fn api_base() -> (base: &'static str)
    ensures
        base@ == "https://api.mercuryo.io"@,
{
    "https://api.mercuryo.io"
}

/// The identifier of an asset: its currency, `_`, and its network.
pub open spec fn asset_id(asset: Asset) -> Seq<char> {
    asset.currency@ + seq!['_'] + asset.network@
}

/// The signature of a purchase for `address`: the SHA-512 digest of the
/// address followed by the secret key, in hexadecimal digits.
pub open spec fn signature_of(address: Seq<char>, secret_key: Seq<char>) -> Seq<char> {
    hex_text(sha512_digest(encode_utf8(address + secret_key)))
}

/// The pairs of the query of a purchase page, in their order.
pub open spec fn redirect_pairs(
    widget_id: Seq<char>,
    transaction_id: Seq<char>,
    quote: Quote,
    network: Seq<char>,
    address: Seq<char>,
    signature: Seq<char>,
) -> Seq<(Seq<char>, Seq<char>)> {
    seq![
        ("widget_id"@, widget_id),
        ("merchant_transaction_id"@, transaction_id),
        ("fiat_amount"@, quote.fiat_amount@),
        ("currency"@, quote.currency@),
        ("address"@, address),
        ("network"@, network),
        ("signature"@, signature),
    ]
}

/// The Mercuryo adapter for one widget.
#[derive(Debug)]
pub struct MercuryoClient {
    pub widget_id: String,
    pub secret_key: String,
}

/// Adds the bytes that one pair can take to `total`, or gives `None` beyond
/// what fits.
fn add_pair_bound(total: Option<u32>, name: &str, value: &str) -> (sum: Option<u32>)
    ensures
        match total {
            Some(t) => {
                let exact = t + 3 * encode_utf8(name@).len() + 3 * encode_utf8(value@).len() + 2;
                match sum {
                    Some(s) => s == exact,
                    None => exact > u32::MAX,
                }
            },
            None => sum is None,
        },
{
    match total {
        Some(t) => {
            let name_bytes = name.as_bytes().len();
            let value_bytes = value.as_bytes().len();
            assert(name_bytes == name.spec_bytes().len() && value_bytes == value.spec_bytes().len());
            let exact: u128 = t as u128 + 3 * (name_bytes as u128) + 3 * (value_bytes as u128) + 2;
            if exact <= u32::MAX as u128 {
                Some(exact as u32)
            } else {
                None
            }
        },
        None => None,
    }
}

impl MercuryoClient {
    pub fn new(widget_id: String, secret_key: String) -> (client: MercuryoClient)
        ensures
            client.widget_id == widget_id,
            client.secret_key == secret_key,
    {
        MercuryoClient { widget_id, secret_key }
    }

    /// Describes an asset of the provider, given the chain that its network
    /// stands for. An empty contract means the native coin.
    pub fn map_asset(asset: Asset, chain: Option<Chain>) -> (mapped: Option<FiatProviderAsset>)
        ensures
            mapped is Some,
            mapped->0.id@ == asset_id(asset),
            mapped->0.chain == chain,
            text_of(mapped->0.token_id) == (if asset.contract@.len() == 0 {
                None
            } else {
                Some(asset.contract@)
            }),
            mapped->0.symbol@ == asset.currency@,
            text_of(mapped->0.network) == Some(asset.network@),
            mapped->0.enabled,
    {
        let token_id = if asset.contract.as_str().unicode_len() == 0 {
            None
        } else {
            Some(asset.contract.clone())
        };
        let mut id = asset.currency.clone();
        proof {
            reveal_strlit("_");
        }
        id.append("_");
        id.append(asset.network.as_str());
        assert(id@ == asset_id(asset)) by {
            assert("_"@ =~= seq!['_']);
        }
        Some(
            FiatProviderAsset {
                id,
                chain,
                token_id,
                symbol: asset.currency,
                network: Some(asset.network),
                enabled: true,
            },
        )
    }

    /// The signature of a purchase for `address`.
    pub fn signature(&self, address: &str) -> (signature: String)
        ensures
            signature@ == signature_of(address@, self.secret_key@),
            signature@.len() == 128,
    {
        let mut content = String::from_str(address);
        content.append(self.secret_key.as_str());
        let bytes = content.as_str().as_bytes_vec();
        let digest = sha512(bytes.as_slice());
        hex_encode(&digest)
    }

    /// The address of the purchase page for a quote, with the given
    /// identifier for the purchase: the page, with the widget, the
    /// identifier, the amount, the currency, the receiving address, the
    /// network and the signature in its query. `None` where the address
    /// would be longer than `url` can hold, or the page is no address.
    pub fn redirect_url_for(
        &self,
        quote: &Quote,
        network: String,
        address: String,
        transaction_id: String,
    ) -> (url: Option<String>)
        ensures
            ({
                let pairs = redirect_pairs(
                    self.widget_id@,
                    transaction_id@,
                    *quote,
                    network@,
                    address@,
                    signature_of(address@, self.secret_key@),
                );
                if fits_in_url("https://exchange.mercuryo.io"@, pairs) {
                    text_of(url) == url_with_query("https://exchange.mercuryo.io"@, pairs)
                } else {
                    url is None
                }
            }),
    {
        let signature = self.signature(address.as_str());
        let base = redirect_base();
        let mut pairs: Vec<(String, String)> = Vec::new();
        pairs.push((String::from_str("widget_id"), self.widget_id.clone()));
        pairs.push((String::from_str("merchant_transaction_id"), transaction_id));
        pairs.push((String::from_str("fiat_amount"), quote.fiat_amount.clone()));
        pairs.push((String::from_str("currency"), quote.currency.clone()));
        pairs.push((String::from_str("address"), address));
        pairs.push((String::from_str("network"), network));
        pairs.push((String::from_str("signature"), signature));
        let base_bytes = base.as_bytes().len();
        assert(base_bytes == base.spec_bytes().len());
        let parsed_bound: u128 = 64 * (base_bytes as u128) + 2;
        let mut bound: Option<u32> = if parsed_bound <= u32::MAX as u128 {
            Some(parsed_bound as u32)
        } else {
            None
        };
        let mut i: usize = 0;
        assert(pair_views(pairs@.take(0)) =~= Seq::<(Seq<char>, Seq<char>)>::empty());
        while i < pairs.len()
            invariant
                0 <= i <= pairs.len(),
                query_bound(pair_views(pairs@.take(i as int))) >= 0,
                match bound {
                    Some(b) => b == 64 * encode_utf8(base@).len() + 2 + query_bound(
                        pair_views(pairs@.take(i as int)),
                    ),
                    None => 64 * encode_utf8(base@).len() + 2 + query_bound(
                        pair_views(pairs@.take(i as int)),
                    ) > u32::MAX,
                },
            decreases pairs.len() - i,
        {
            assert(pair_views(pairs@.take(i + 1)).drop_last() =~= pair_views(
                pairs@.take(i as int),
            ));
            bound = add_pair_bound(bound, pairs[i].0.as_str(), pairs[i].1.as_str());
            i = i + 1;
        }
        assert(pairs@.take(i as int) =~= pairs@);
        assert(pair_views(pairs@) =~= redirect_pairs(
            self.widget_id@,
            transaction_id@,
            *quote,
            network@,
            address@,
            signature_of(address@, self.secret_key@),
        ));
        match bound {
            Some(_) => url_with_pairs(base, &pairs),
            None => None,
        }
    }

    /// The address of the purchase page for a quote, with a fresh random
    /// identifier for the purchase.
    pub fn redirect_url(&self, quote: &Quote, network: String, address: String) -> (url: Option<
        String,
    >)
        ensures
            exists|transaction_id: Seq<char>|
                {
                    let pairs = #[trigger] redirect_pairs(
                        self.widget_id@,
                        transaction_id,
                        *quote,
                        network@,
                        address@,
                        signature_of(address@, self.secret_key@),
                    );
                    if fits_in_url("https://exchange.mercuryo.io"@, pairs) {
                        text_of(url) == url_with_query("https://exchange.mercuryo.io"@, pairs)
                    } else {
                        url is None
                    }
                },
    {
        let transaction_id = new_uuid();
        self.redirect_url_for(quote, network, address, transaction_id)
    }
}

} // verus!
