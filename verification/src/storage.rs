//! The rules of the key-value cache that need no connection.

use vstd::prelude::*;
use vstd::string::StringExecFns;
use crate::matcher::{subscription_views, text_views, Subscription, SubscriptionView};

verus! {

/// Why a value could not be read.
#[derive(Clone, Copy, Debug, PartialEq, Eq, Structural, Hash)]
pub enum StorageError {
    /// Nothing is stored under the key.
    Missing,
}

impl StorageError {
    pub fn to_string(&self) -> (text: String)
        ensures
            text@ == "serilization"@,
    {
        match self {
            StorageError::Missing => "serilization".to_string(),
        }
    }
}

/// The values that are present, in order.
pub open spec fn present(values: Seq<Option<String>>) -> Seq<Seq<char>>
    decreases values.len(),
{
    if values.len() == 0 {
        Seq::empty()
    } else {
        let before = present(values.drop_last());
        match values.last() {
            Some(value) => before.push(value@),
            None => before,
        }
    }
}

/// The addresses of the subscriptions, in order.
pub open spec fn addresses_of(subscriptions: Seq<SubscriptionView>) -> Seq<Seq<char>> {
    subscriptions.map_values(|s: SubscriptionView| s.address)
}

/// The pattern that matches every key with the prefix.
pub fn keys_pattern(prefix: &str) -> (pattern: String)
    ensures
        pattern@ == prefix@ + "*"@,
{
    let mut pattern = String::from_str(prefix);
    pattern.append("*");
    pattern
}

/// What was read under a key, or that nothing is stored there.
pub fn stored_value(value: Option<String>) -> (result: Result<String, StorageError>)
    ensures
        match value {
            Some(v) => result == Ok::<String, StorageError>(v),
            None => result == Err::<String, StorageError>(StorageError::Missing),
        },
{
    match value {
        Some(v) => Ok(v),
        None => Err(StorageError::Missing),
    }
}

/// The values that were read, without the keys under which nothing is
/// stored.
pub fn present_values(values: &Vec<Option<String>>) -> (found: Vec<String>)
    ensures
        text_views(found@) == present(values@),
{
    let mut found: Vec<String> = Vec::new();
    let mut i: usize = 0;
    assert(text_views(found@) =~= present(values@.take(0)));
    while i < values.len()
        invariant
            0 <= i <= values.len(),
            text_views(found@) == present(values@.take(i as int)),
        decreases values.len() - i,
    {
        let ghost before = found@;
        assert(values@.take(i + 1).drop_last() =~= values@.take(i as int));
        match &values[i] {
            Some(value) => {
                found.push(value.clone());
                assert(text_views(found@) =~= text_views(before).push(value@));
            },
            None => {},
        }
        i = i + 1;
    }
    assert(values@.take(i as int) =~= values@);
    found
}

/// The addresses that a device's subscriptions are for, in order.
pub fn subscription_addresses(subscriptions: &Vec<Subscription>) -> (addresses: Vec<String>)
    ensures
        text_views(addresses@) == addresses_of(subscription_views(subscriptions@)),
{
    let mut addresses: Vec<String> = Vec::new();
    let mut i: usize = 0;
    while i < subscriptions.len()
        invariant
            0 <= i <= subscriptions.len(),
            text_views(addresses@) == addresses_of(subscription_views(subscriptions@)).take(
                i as int,
            ),
        decreases subscriptions.len() - i,
    {
        let ghost before = addresses@;
        let address = subscriptions[i].address.clone();
        addresses.push(address);
        assert(text_views(addresses@) =~= text_views(before).push(address@));
        assert(subscription_views(subscriptions@)[i as int].address == address@);
        i = i + 1;
        assert(text_views(addresses@) =~= addresses_of(subscription_views(subscriptions@)).take(
            i as int,
        ));
    }
    assert(addresses_of(subscription_views(subscriptions@)).take(i as int) =~= addresses_of(
        subscription_views(subscriptions@),
    ));
    addresses
}

} // verus!
