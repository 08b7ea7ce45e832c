//! The rules of the Ramp adapter that need no network.

use vstd::prelude::*;
use vstd::string::StringExecFns;
use crate::fiat::model::{FiatError, FiatTransactionStatus};
use crate::matcher::{contains_address, text_views};
use crate::text::{same_text, text_or_empty};

verus! {

/// The status of a purchase for the status that the provider reports.
pub open spec fn purchase_status(status: Seq<char>) -> FiatTransactionStatus {
    if status == "CREATED"@ || status == "INITIALIZED"@ {
        FiatTransactionStatus::Pending
    } else if status == "RETURNED"@ || status == "EXPIRED"@ || status == "CANCELLED"@ {
        FiatTransactionStatus::Failed
    } else if status == "RELEASED"@ {
        FiatTransactionStatus::Complete
    } else {
        FiatTransactionStatus::Unknown
    }
}

/// The symbol under which the provider lists an asset: the network, `_`,
/// and the asset's symbol; the network is empty where none is given.
pub open spec fn asset_symbol(network: Option<String>, symbol: Seq<char>) -> Seq<char> {
    text_or_empty(network) + seq!['_'] + symbol
}

/// Maps the status that a webhook reports onto the status of a purchase.
pub fn map_status(status: &str) -> (mapped: FiatTransactionStatus)
    ensures
        mapped == purchase_status(status@),
{
    if same_text(status, "CREATED") || same_text(status, "INITIALIZED") {
        FiatTransactionStatus::Pending
    } else if same_text(status, "RETURNED") || same_text(status, "EXPIRED") || same_text(
        status,
        "CANCELLED",
    ) {
        FiatTransactionStatus::Failed
    } else if same_text(status, "RELEASED") {
        FiatTransactionStatus::Complete
    } else {
        FiatTransactionStatus::Unknown
    }
}

/// The symbol under which the provider lists the asset with `symbol` on
/// `network`.
pub fn crypto_asset_symbol(network: &Option<String>, symbol: &str) -> (listed: String)
    ensures
        listed@ == asset_symbol(*network, symbol@),
{
    let mut listed = match network {
        Some(n) => n.clone(),
        None => String::new(),
    };
    proof {
        reveal_strlit("_");
    }
    listed.append("_");
    listed.append(symbol);
    assert(listed@ == text_or_empty(*network) + seq!['_'] + symbol@) by {
        assert("_"@ =~= seq!['_']);
    }
    listed
}

/// The symbol to ask a quote for, where the provider lists it among
/// `supported`; an asset that is not listed is refused.
pub fn quote_symbol(supported: &Vec<String>, network: &Option<String>, symbol: &str) -> (result:
    Result<String, FiatError>)
    ensures
        match result {
            Ok(listed) => listed@ == asset_symbol(*network, symbol@) && text_views(
                supported@,
            ).contains(listed@),
            Err(error) => error == FiatError::AssetNotSupported && !text_views(
                supported@,
            ).contains(asset_symbol(*network, symbol@)),
        },
{
    let listed = crypto_asset_symbol(network, symbol);
    if contains_address(supported, &listed) {
        Ok(listed)
    } else {
        Err(FiatError::AssetNotSupported)
    }
}

} // verus!
