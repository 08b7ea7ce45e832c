//! Matching a batch of transactions against subscriptions: who is notified,
//! and what is persisted.

use vstd::prelude::*;
use crate::chain::Chain;
use crate::transaction::{transaction_views, Transaction, TransactionView};

verus! {

/// The registration of a device's interest in an address on a chain.
#[derive(Debug, PartialEq, Eq)]
pub struct Subscription {
    pub device_id: i32,
    pub chain: Chain,
    pub address: String,
}

/// What a `Subscription` stands for in contracts.
pub struct SubscriptionView {
    pub device_id: i32,
    pub chain: Chain,
    pub address: Seq<char>,
}

impl View for Subscription {
    type V = SubscriptionView;

    open spec fn view(&self) -> SubscriptionView {
        SubscriptionView { device_id: self.device_id, chain: self.chain, address: self.address@ }
    }
}

impl Clone for Subscription {
    fn clone(&self) -> (copy: Self)
        ensures
            copy == *self,
    {
        Subscription { device_id: self.device_id, chain: self.chain, address: self.address.clone() }
    }
}

/// The kind of device that receives notifications.
#[derive(Clone, Copy, Debug, PartialEq, Eq, Structural, Hash)]
pub enum Platform {
    IOS,
    Android,
}

/// The identity under which a device receives notifications.
#[derive(Debug, PartialEq, Eq)]
pub struct Device {
    pub id: i32,
    pub platform: Platform,
    pub token: String,
}

/// One notification to send: a matched transaction and the device that
/// subscribed to one of its addresses.
#[derive(Debug, PartialEq, Eq)]
pub struct Dispatch {
    pub device_id: i32,
    pub transaction: Transaction,
}

/// What a `Dispatch` stands for in contracts.
pub struct DispatchView {
    pub device_id: i32,
    pub transaction: TransactionView,
}

impl View for Dispatch {
    type V = DispatchView;

    open spec fn view(&self) -> DispatchView {
        DispatchView { device_id: self.device_id, transaction: self.transaction@ }
    }
}

/// The outcome of matching one batch: the notifications to send, in order,
/// and the transactions to persist, each identifier once.
#[derive(Debug, PartialEq, Eq)]
pub struct MatchedBatch {
    pub dispatches: Vec<Dispatch>,
    pub transactions: Vec<Transaction>,
}

pub open spec fn subscription_views(subscriptions: Seq<Subscription>) -> Seq<SubscriptionView> {
    subscriptions.map_values(|s: Subscription| s@)
}

pub open spec fn dispatch_views(dispatches: Seq<Dispatch>) -> Seq<DispatchView> {
    dispatches.map_values(|d: Dispatch| d@)
}

pub open spec fn text_views(texts: Seq<String>) -> Seq<Seq<char>> {
    texts.map_values(|t: String| t@)
}

/// The addresses touched by a batch: for each transaction in order, its
/// source and then its destination.
pub open spec fn touched(transactions: Seq<TransactionView>) -> Seq<Seq<char>>
    decreases transactions.len(),
{
    if transactions.len() == 0 {
        Seq::empty()
    } else {
        touched(transactions.drop_last()) + transactions.last().addresses()
    }
}

/// Whether a subscription is on `chain` and for one of `addresses`.
pub open spec fn wants(
    subscription: SubscriptionView,
    chain: Chain,
    addresses: Seq<Seq<char>>,
) -> bool {
    subscription.chain == chain && addresses.contains(subscription.address)
}

/// The subscriptions on `chain` whose address is among `addresses`, in
/// the order in which they were given.
pub open spec fn wanted(
    subscriptions: Seq<SubscriptionView>,
    chain: Chain,
    addresses: Seq<Seq<char>>,
) -> Seq<SubscriptionView>
    decreases subscriptions.len(),
{
    if subscriptions.len() == 0 {
        Seq::empty()
    } else {
        let before = wanted(subscriptions.drop_last(), chain, addresses);
        if wants(subscriptions.last(), chain, addresses) {
            before.push(subscriptions.last())
        } else {
            before
        }
    }
}

/// The notifications one subscription gives rise to: one for each
/// transaction that touches its address, in the order of the transactions.
pub open spec fn dispatches_for(
    subscription: SubscriptionView,
    transactions: Seq<TransactionView>,
) -> Seq<DispatchView>
    decreases transactions.len(),
{
    if transactions.len() == 0 {
        Seq::empty()
    } else {
        let before = dispatches_for(subscription, transactions.drop_last());
        if transactions.last().touches(subscription.address) {
            before.push(
                DispatchView {
                    device_id: subscription.device_id,
                    transaction: transactions.last(),
                },
            )
        } else {
            before
        }
    }
}

/// The notifications of a batch: those of each subscription, in the order
/// of the subscriptions.
pub open spec fn dispatches(
    subscriptions: Seq<SubscriptionView>,
    transactions: Seq<TransactionView>,
) -> Seq<DispatchView>
    decreases subscriptions.len(),
{
    if subscriptions.len() == 0 {
        Seq::empty()
    } else {
        dispatches(subscriptions.drop_last(), transactions) + dispatches_for(
            subscriptions.last(),
            transactions,
        )
    }
}

/// Whether some entry of `store` has the identifier `id`.
pub open spec fn holds_id(store: Seq<TransactionView>, id: Seq<char>) -> bool {
    exists|i: int| 0 <= i < store.len() && #[trigger] store[i].id == id
}

/// `store` after `transaction` has been recorded under its identifier: it
/// takes the place of what was recorded under that identifier, or is added
/// at the end.
pub open spec fn upsert(
    store: Seq<TransactionView>,
    transaction: TransactionView,
) -> Seq<TransactionView> {
    if holds_id(store, transaction.id) {
        Seq::new(
            store.len(),
            |i: int|
                if store[i].id == transaction.id {
                    transaction
                } else {
                    store[i]
                },
        )
    } else {
        store.push(transaction)
    }
}

/// The transactions to persist for a list of notifications: each
/// dispatched transaction recorded under its identifier, in order.
pub open spec fn stored(dispatches: Seq<DispatchView>) -> Seq<TransactionView>
    decreases dispatches.len(),
{
    if dispatches.len() == 0 {
        Seq::empty()
    } else {
        upsert(stored(dispatches.drop_last()), dispatches.last().transaction)
    }
}

/// Whether no identifier occurs twice.
pub open spec fn distinct_ids(transactions: Seq<TransactionView>) -> bool {
    forall|i: int, j: int|
        0 <= i < j < transactions.len() ==> #[trigger] transactions[i].id
            != #[trigger] transactions[j].id
}

/// Whether some subscription is for an address that `transaction` touches.
pub open spec fn is_matched(
    subscriptions: Seq<SubscriptionView>,
    transaction: TransactionView,
) -> bool {
    exists|s: int|
        0 <= s < subscriptions.len() && transaction.touches(#[trigger] subscriptions[s].address)
}

/// The addresses touched by a batch, two for each transaction.
pub fn touched_addresses(transactions: &Vec<Transaction>) -> (addresses: Vec<String>)
    ensures
        text_views(addresses@) == touched(transaction_views(transactions@)),
{
    let mut addresses: Vec<String> = Vec::new();
    let mut i: usize = 0;
    assert(text_views(addresses@) =~= touched(transaction_views(transactions@.take(0))));
    while i < transactions.len()
        invariant
            0 <= i <= transactions.len(),
            text_views(addresses@) == touched(transaction_views(transactions@.take(i as int))),
        decreases transactions.len() - i,
    {
        let ghost before = addresses@;
        let from = transactions[i].from.clone();
        let to = transactions[i].to.clone();
        addresses.push(from);
        addresses.push(to);
        proof {
            let done = transaction_views(transactions@.take(i + 1));
            assert(done.drop_last() =~= transaction_views(transactions@.take(i as int)));
            assert(done.last() == transactions[i as int]@);
            assert(text_views(addresses@) =~= text_views(before) + done.last().addresses());
        }
        i = i + 1;
    }
    assert(transactions@.take(i as int) =~= transactions@);
    addresses
}

/// Whether `address` is among `addresses`.
pub fn contains_address(addresses: &Vec<String>, address: &String) -> (found: bool)
    ensures
        found == text_views(addresses@).contains(address@),
{
    let mut i: usize = 0;
    while i < addresses.len()
        invariant
            0 <= i <= addresses.len(),
            forall|k: int| 0 <= k < i ==> text_views(addresses@)[k] != address@,
        decreases addresses.len() - i,
    {
        if addresses[i] == *address {
            assert(text_views(addresses@)[i as int] == address@);
            return true;
        }
        i = i + 1;
    }
    false
}

/// Selects the subscriptions on `chain` whose address is among
/// `addresses`, keeping their order.
pub fn matching_subscriptions(
    subscriptions: &Vec<Subscription>,
    chain: Chain,
    addresses: &Vec<String>,
) -> (selected: Vec<Subscription>)
    ensures
        subscription_views(selected@) == wanted(
            subscription_views(subscriptions@),
            chain,
            text_views(addresses@),
        ),
{
    let mut selected: Vec<Subscription> = Vec::new();
    let mut i: usize = 0;
    assert(subscription_views(selected@) =~= wanted(
        subscription_views(subscriptions@.take(0)),
        chain,
        text_views(addresses@),
    ));
    while i < subscriptions.len()
        invariant
            0 <= i <= subscriptions.len(),
            subscription_views(selected@) == wanted(
                subscription_views(subscriptions@.take(i as int)),
                chain,
                text_views(addresses@),
            ),
        decreases subscriptions.len() - i,
    {
        let ghost before = selected@;
        proof {
            let done = subscription_views(subscriptions@.take(i + 1));
            assert(done.drop_last() =~= subscription_views(subscriptions@.take(i as int)));
            assert(done.last() == subscriptions[i as int]@);
        }
        if subscriptions[i].chain == chain && contains_address(
            addresses,
            &subscriptions[i].address,
        ) {
            let copy = subscriptions[i].clone();
            selected.push(copy);
            assert(subscription_views(selected@) =~= subscription_views(before).push(copy@));
        }
        i = i + 1;
    }
    assert(subscriptions@.take(i as int) =~= subscriptions@);
    selected
}

/// Records `transaction` in `store` under its identifier.
pub fn record(store: &mut Vec<Transaction>, transaction: Transaction)
    ensures
        transaction_views(final(store)@) == upsert(
            transaction_views(old(store)@),
            transaction@,
        ),
{
    let ghost before = transaction_views(store@);
    let mut found = false;
    let mut i: usize = 0;
    while i < store.len()
        invariant
            0 <= i <= store.len(),
            store.len() == before.len(),
            found == holds_id(before.take(i as int), transaction@.id),
            transaction_views(store@) == Seq::new(
                before.len(),
                |k: int|
                    if k < i && before[k].id == transaction@.id {
                        transaction@
                    } else {
                        before[k]
                    },
            ),
        decreases store.len() - i,
    {
        let ghost so_far = store@;
        assert(transaction_views(so_far)[i as int] == before[i as int]);
        if store[i].id == transaction.id {
            let copy = transaction.clone();
            store.set(i, copy);
            found = true;
            assert(transaction_views(store@) =~= transaction_views(so_far).update(
                i as int,
                transaction@,
            ));
        }
        proof {
            let id = transaction@.id;
            let shorter = before.take(i as int);
            let longer = before.take(i + 1);
            if before[i as int].id == id {
                assert(longer[i as int].id == id);
            } else if holds_id(longer, id) {
                let k = choose|k: int| 0 <= k < longer.len() && #[trigger] longer[k].id == id;
                assert(shorter[k].id == id);
            }
            if holds_id(shorter, id) {
                let k = choose|k: int| 0 <= k < shorter.len() && #[trigger] shorter[k].id == id;
                assert(longer[k].id == id);
            }
        }
        i = i + 1;
        assert(transaction_views(store@) =~= Seq::new(
            before.len(),
            |k: int|
                if k < i && before[k].id == transaction@.id {
                    transaction@
                } else {
                    before[k]
                },
        ));
    }
    assert(before.take(i as int) =~= before);
    if !found {
        let ghost so_far = store@;
        assert(transaction_views(so_far) =~= before);
        store.push(transaction);
        assert(transaction_views(store@) =~= before.push(transaction@));
    } else {
        assert(transaction_views(store@) =~= upsert(before, transaction@));
    }
}

/// Matches a batch against the subscriptions for its addresses.
///
/// For every subscription, in order, and every transaction that touches
/// the subscription's address, in order, one notification goes to the
/// subscription's device, and the transaction is recorded for persistence
/// under its identifier. A transaction that no subscription matches is
/// neither dispatched nor recorded.
pub fn match_transactions(
    subscriptions: &Vec<Subscription>,
    transactions: &Vec<Transaction>,
) -> (batch: MatchedBatch)
    ensures
        dispatch_views(batch.dispatches@) == dispatches(
            subscription_views(subscriptions@),
            transaction_views(transactions@),
        ),
        transaction_views(batch.transactions@) == stored(dispatch_views(batch.dispatches@)),
{
    let mut sent: Vec<Dispatch> = Vec::new();
    let mut store: Vec<Transaction> = Vec::new();
    let ghost all = transaction_views(transactions@);
    let mut s: usize = 0;
    assert(dispatch_views(sent@) =~= dispatches(subscription_views(subscriptions@.take(0)), all));
    assert(transaction_views(store@) =~= stored(dispatch_views(sent@)));
    while s < subscriptions.len()
        invariant
            0 <= s <= subscriptions.len(),
            all == transaction_views(transactions@),
            dispatch_views(sent@) == dispatches(
                subscription_views(subscriptions@.take(s as int)),
                all,
            ),
            transaction_views(store@) == stored(dispatch_views(sent@)),
        decreases subscriptions.len() - s,
    {
        let subscription = &subscriptions[s];
        let ghost done = dispatches(subscription_views(subscriptions@.take(s as int)), all);
        let mut t: usize = 0;
        assert(dispatch_views(sent@) =~= done + dispatches_for(
            subscription@,
            transaction_views(transactions@.take(0)),
        ));
        while t < transactions.len()
            invariant
                0 <= t <= transactions.len(),
                all == transaction_views(transactions@),
                dispatch_views(sent@) == done + dispatches_for(
                    subscription@,
                    transaction_views(transactions@.take(t as int)),
                ),
                transaction_views(store@) == stored(dispatch_views(sent@)),
            decreases transactions.len() - t,
        {
            let ghost sent_before = sent@;
            proof {
                let seen = transaction_views(transactions@.take(t + 1));
                assert(seen.drop_last() =~= transaction_views(transactions@.take(t as int)));
                assert(seen.last() == transactions[t as int]@);
            }
            if transactions[t].touches(&subscription.address) {
                let dispatch = Dispatch {
                    device_id: subscription.device_id,
                    transaction: transactions[t].clone(),
                };
                let ghost sending = dispatch@;
                sent.push(dispatch);
                record(&mut store, transactions[t].clone());
                proof {
                    assert(dispatch_views(sent@) =~= dispatch_views(sent_before).push(sending));
                    assert(dispatch_views(sent@).drop_last() =~= dispatch_views(sent_before));
                    assert(dispatch_views(sent@) =~= done + dispatches_for(
                        subscription@,
                        transaction_views(transactions@.take(t + 1)),
                    ));
                }
            }
            t = t + 1;
        }
        proof {
            assert(transactions@.take(t as int) =~= transactions@);
            let heard = subscription_views(subscriptions@.take(s + 1));
            assert(heard.drop_last() =~= subscription_views(subscriptions@.take(s as int)));
            assert(heard.last() == subscription@);
        }
        s = s + 1;
    }
    assert(subscriptions@.take(s as int) =~= subscriptions@);
    MatchedBatch { dispatches: sent, transactions: store }
}

} // verus!
