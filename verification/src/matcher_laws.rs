//! What holds of every matched batch: who is notified and what is
//! persisted, stated over the definitions of `matcher`.

use vstd::prelude::*;
use crate::matcher::{
    dispatches, dispatches_for, distinct_ids, holds_id, is_matched, stored, upsert, DispatchView,
    SubscriptionView,
};
use crate::transaction::TransactionView;

verus! {

/// The notification that `subscription` receives for `transaction`.
pub open spec fn notification(
    subscription: SubscriptionView,
    transaction: TransactionView,
) -> DispatchView {
    DispatchView { device_id: subscription.device_id, transaction }
}

/// A subscription is notified of exactly the transactions of the batch
/// that touch its address.
pub proof fn notified_of_touching(
    subscription: SubscriptionView,
    transactions: Seq<TransactionView>,
)
    ensures
        forall|i: int|
            0 <= i < dispatches_for(subscription, transactions).len() ==> {
                let d = #[trigger] dispatches_for(subscription, transactions)[i];
                &&& d.device_id == subscription.device_id
                &&& transactions.contains(d.transaction)
                &&& d.transaction.touches(subscription.address)
            },
        forall|k: int|
            0 <= k < transactions.len() && (#[trigger] transactions[k]).touches(
                subscription.address,
            ) ==> dispatches_for(subscription, transactions).contains(
                notification(subscription, transactions[k]),
            ),
    decreases transactions.len(),
{
    if transactions.len() > 0 {
        let shorter = transactions.drop_last();
        let last = transactions.last();
        notified_of_touching(subscription, shorter);
        let before = dispatches_for(subscription, shorter);
        let now = dispatches_for(subscription, transactions);
        assert forall|i: int| 0 <= i < now.len() implies {
            let d = #[trigger] now[i];
            &&& d.device_id == subscription.device_id
            &&& transactions.contains(d.transaction)
            &&& d.transaction.touches(subscription.address)
        } by {
            if i < before.len() {
                let d = before[i];
                assert(now[i] == d);
                let k = choose|k: int| 0 <= k < shorter.len() && shorter[k] == d.transaction;
                assert(transactions[k] == d.transaction);
            } else {
                assert(now[i].transaction == transactions[transactions.len() - 1]);
            }
        }
        assert forall|k: int|
            0 <= k < transactions.len() && (#[trigger] transactions[k]).touches(
                subscription.address,
            ) implies now.contains(notification(subscription, transactions[k])) by {
            if k < shorter.len() {
                assert(shorter[k] == transactions[k]);
                let d = notification(subscription, transactions[k]);
                let i = choose|i: int| 0 <= i < before.len() && before[i] == d;
                assert(now[i] == d);
            } else {
                assert(now[now.len() - 1] == notification(subscription, transactions[k]));
            }
        }
    }
}

/// The notifications of a batch are exactly the pairs of a subscription
/// and a transaction that touches its address.
pub proof fn notified_iff_touching(
    subscriptions: Seq<SubscriptionView>,
    transactions: Seq<TransactionView>,
)
    ensures
        forall|i: int|
            0 <= i < dispatches(subscriptions, transactions).len() ==> {
                let d = #[trigger] dispatches(subscriptions, transactions)[i];
                &&& transactions.contains(d.transaction)
                &&& exists|s: int|
                    0 <= s < subscriptions.len() && (#[trigger] subscriptions[s]).device_id
                        == d.device_id && d.transaction.touches(subscriptions[s].address)
            },
        forall|s: int, k: int|
            0 <= s < subscriptions.len() && 0 <= k < transactions.len() && (
            #[trigger] transactions[k]).touches((#[trigger] subscriptions[s]).address)
                ==> dispatches(subscriptions, transactions).contains(
                notification(subscriptions[s], transactions[k]),
            ),
    decreases subscriptions.len(),
{
    if subscriptions.len() > 0 {
        let fewer = subscriptions.drop_last();
        let last = subscriptions.last();
        notified_iff_touching(fewer, transactions);
        notified_of_touching(last, transactions);
        let before = dispatches(fewer, transactions);
        let added = dispatches_for(last, transactions);
        let now = dispatches(subscriptions, transactions);
        assert(now == before + added);
        assert forall|i: int| 0 <= i < now.len() implies {
            let d = #[trigger] now[i];
            &&& transactions.contains(d.transaction)
            &&& exists|s: int|
                0 <= s < subscriptions.len() && (#[trigger] subscriptions[s]).device_id
                    == d.device_id && d.transaction.touches(subscriptions[s].address)
        } by {
            let d = now[i];
            if i < before.len() {
                assert(before[i] == d);
                let s = choose|s: int|
                    0 <= s < fewer.len() && (#[trigger] fewer[s]).device_id == d.device_id
                        && d.transaction.touches(fewer[s].address);
                assert(subscriptions[s] == fewer[s]);
            } else {
                assert(added[i - before.len()] == d);
                assert(subscriptions[subscriptions.len() - 1] == last);
            }
        }
        assert forall|s: int, k: int|
            0 <= s < subscriptions.len() && 0 <= k < transactions.len() && (
            #[trigger] transactions[k]).touches(
                (#[trigger] subscriptions[s]).address,
            ) implies now.contains(notification(subscriptions[s], transactions[k])) by {
            let d = notification(subscriptions[s], transactions[k]);
            if s < fewer.len() {
                assert(fewer[s] == subscriptions[s]);
                let i = choose|i: int| 0 <= i < before.len() && before[i] == d;
                assert(now[i] == d);
            } else {
                let i = choose|i: int| 0 <= i < added.len() && added[i] == d;
                assert(now[before.len() + i] == d);
            }
        }
    }
}

/// Recording a transaction keeps the identifiers that were recorded, at
/// their places, and leaves the transaction recorded under its own.
pub proof fn recording_keeps_identifiers(store: Seq<TransactionView>, transaction: TransactionView)
    ensures
        upsert(store, transaction).len() >= store.len(),
        forall|i: int|
            0 <= i < store.len() ==> (#[trigger] upsert(store, transaction)[i]).id == store[i].id,
        forall|i: int|
            0 <= i < upsert(store, transaction).len() ==> (#[trigger] upsert(
                store,
                transaction,
            )[i]) == transaction || (i < store.len() && upsert(store, transaction)[i] == store[i]),
        holds_id(upsert(store, transaction), transaction.id),
        distinct_ids(store) ==> distinct_ids(upsert(store, transaction)),
{
    let after = upsert(store, transaction);
    if holds_id(store, transaction.id) {
        let i = choose|i: int| 0 <= i < store.len() && #[trigger] store[i].id == transaction.id;
        assert(after[i].id == transaction.id);
    } else {
        assert(after[store.len() as int].id == transaction.id);
    }
    if distinct_ids(store) {
        assert forall|i: int, j: int| 0 <= i < j < after.len() implies #[trigger] after[i].id
            != #[trigger] after[j].id by {
            if j < store.len() {
                assert(after[i].id == store[i].id);
                assert(after[j].id == store[j].id);
            } else {
                assert(after[i].id == store[i].id);
            }
        }
    }
}

/// No identifier is persisted twice, whatever was dispatched.
pub proof fn persisted_once(sent: Seq<DispatchView>)
    ensures
        distinct_ids(stored(sent)),
    decreases sent.len(),
{
    if sent.len() > 0 {
        persisted_once(sent.drop_last());
        recording_keeps_identifiers(stored(sent.drop_last()), sent.last().transaction);
    }
}

/// What is persisted was dispatched, and the identifier of everything
/// dispatched is persisted.
pub proof fn persisted_iff_dispatched(sent: Seq<DispatchView>)
    ensures
        forall|j: int|
            0 <= j < stored(sent).len() ==> exists|i: int|
                0 <= i < sent.len() && (#[trigger] sent[i]).transaction == #[trigger] stored(
                    sent,
                )[j],
        forall|i: int|
            0 <= i < sent.len() ==> holds_id(stored(sent), (#[trigger] sent[i]).transaction.id),
    decreases sent.len(),
{
    if sent.len() > 0 {
        let fewer = sent.drop_last();
        let last = sent.last().transaction;
        persisted_iff_dispatched(fewer);
        recording_keeps_identifiers(stored(fewer), last);
        let before = stored(fewer);
        let now = stored(sent);
        assert forall|j: int| 0 <= j < now.len() implies exists|i: int|
            0 <= i < sent.len() && (#[trigger] sent[i]).transaction == #[trigger] now[j] by {
            if now[j] == last {
                assert(sent[sent.len() - 1].transaction == now[j]);
            } else {
                assert(now[j] == before[j]);
                let i = choose|i: int|
                    0 <= i < fewer.len() && (#[trigger] fewer[i]).transaction == before[j];
                assert(sent[i].transaction == now[j]);
            }
        }
        assert forall|i: int| 0 <= i < sent.len() implies holds_id(
            now,
            (#[trigger] sent[i]).transaction.id,
        ) by {
            if i < fewer.len() {
                assert(fewer[i] == sent[i]);
                let id = sent[i].transaction.id;
                let j = choose|j: int| 0 <= j < before.len() && #[trigger] before[j].id == id;
                assert(now[j].id == id);
            }
        }
    }
}

/// Nothing is persisted that no subscription matched: every persisted
/// transaction is one of the batch, and some subscription is for an address
/// it touches.
pub proof fn persisted_only_if_matched(
    subscriptions: Seq<SubscriptionView>,
    transactions: Seq<TransactionView>,
)
    ensures
        forall|j: int|
            0 <= j < stored(dispatches(subscriptions, transactions)).len() ==> {
                let p = #[trigger] stored(dispatches(subscriptions, transactions))[j];
                transactions.contains(p) && is_matched(subscriptions, p)
            },
{
    let sent = dispatches(subscriptions, transactions);
    notified_iff_touching(subscriptions, transactions);
    persisted_iff_dispatched(sent);
    assert forall|j: int| 0 <= j < stored(sent).len() implies {
        let p = #[trigger] stored(sent)[j];
        transactions.contains(p) && is_matched(subscriptions, p)
    } by {
        let p = stored(sent)[j];
        let i = choose|i: int| 0 <= i < sent.len() && (#[trigger] sent[i]).transaction == p;
        let d = sent[i];
        let s = choose|s: int|
            0 <= s < subscriptions.len() && (#[trigger] subscriptions[s]).device_id == d.device_id
                && d.transaction.touches(subscriptions[s].address);
        assert(p.touches(subscriptions[s].address));
    }
}

/// A transaction of the batch that some subscription matches is persisted
/// under its identifier.
pub proof fn matched_is_persisted(
    subscriptions: Seq<SubscriptionView>,
    transactions: Seq<TransactionView>,
    k: int,
)
    requires
        0 <= k < transactions.len(),
        is_matched(subscriptions, transactions[k]),
    ensures
        holds_id(stored(dispatches(subscriptions, transactions)), transactions[k].id),
{
    let sent = dispatches(subscriptions, transactions);
    notified_iff_touching(subscriptions, transactions);
    persisted_iff_dispatched(sent);
    let s = choose|s: int|
        0 <= s < subscriptions.len() && transactions[k].touches(
            #[trigger] subscriptions[s].address,
        );
    let d = notification(subscriptions[s], transactions[k]);
    assert(sent.contains(d));
    let i = choose|i: int| 0 <= i < sent.len() && sent[i] == d;
    assert(sent[i].transaction.id == transactions[k].id);
}

/// In a batch whose identifiers are distinct, a transaction is persisted if
/// and only if some subscription is for an address it touches, and then it
/// is persisted exactly once.
pub proof fn persisted_iff_matched(
    subscriptions: Seq<SubscriptionView>,
    transactions: Seq<TransactionView>,
    k: int,
)
    requires
        0 <= k < transactions.len(),
        distinct_ids(transactions),
    ensures
        stored(dispatches(subscriptions, transactions)).contains(transactions[k]) <==> is_matched(
            subscriptions,
            transactions[k],
        ),
        distinct_ids(stored(dispatches(subscriptions, transactions))),
{
    let kept = stored(dispatches(subscriptions, transactions));
    persisted_only_if_matched(subscriptions, transactions);
    persisted_once(dispatches(subscriptions, transactions));
    if kept.contains(transactions[k]) {
        let j = choose|j: int| 0 <= j < kept.len() && kept[j] == transactions[k];
        assert(is_matched(subscriptions, kept[j]));
    }
    if is_matched(subscriptions, transactions[k]) {
        matched_is_persisted(subscriptions, transactions, k);
        let j = choose|j: int| 0 <= j < kept.len() && #[trigger] kept[j].id == transactions[k].id;
        assert(transactions.contains(kept[j]));
        let m = choose|m: int| 0 <= m < transactions.len() && transactions[m] == kept[j];
        if m < k {
            assert(transactions[m].id != transactions[k].id);
        }
        if k < m {
            assert(transactions[k].id != transactions[m].id);
        }
        assert(kept[j] == transactions[k]);
    }
}

/// A transaction that two subscriptions match is dispatched twice, once to
/// the device of each, and persisted once.
pub proof fn matched_twice_persisted_once(
    first: SubscriptionView,
    second: SubscriptionView,
    transaction: TransactionView,
)
    requires
        transaction.touches(first.address),
        transaction.touches(second.address),
    ensures
        dispatches(seq![first, second], seq![transaction]) == seq![
            notification(first, transaction),
            notification(second, transaction),
        ],
        stored(dispatches(seq![first, second], seq![transaction])) == seq![transaction],
{
    let subscriptions = seq![first, second];
    let transactions = seq![transaction];
    let none = Seq::<TransactionView>::empty();
    assert(transactions.drop_last() =~= none);
    assert(dispatches_for(first, none) =~= Seq::<DispatchView>::empty());
    assert(dispatches_for(second, none) =~= Seq::<DispatchView>::empty());
    assert(dispatches_for(first, transactions) =~= seq![notification(first, transaction)]);
    assert(dispatches_for(second, transactions) =~= seq![notification(second, transaction)]);
    assert(subscriptions.drop_last() =~= seq![first]);
    assert(seq![first].drop_last() =~= Seq::<SubscriptionView>::empty());
    assert(dispatches(Seq::<SubscriptionView>::empty(), transactions) =~= Seq::<
        DispatchView,
    >::empty());
    assert(dispatches(seq![first], transactions) =~= seq![notification(first, transaction)]);
    let sent = dispatches(subscriptions, transactions);
    assert(sent =~= seq![notification(first, transaction), notification(second, transaction)]);
    assert(sent.drop_last() =~= seq![notification(first, transaction)]);
    assert(sent.drop_last().drop_last() =~= Seq::<DispatchView>::empty());
    assert(stored(Seq::<DispatchView>::empty()) =~= none);
    assert(!holds_id(none, transaction.id));
    assert(stored(sent.drop_last()) =~= seq![transaction]);
    assert(seq![transaction][0].id == transaction.id);
    assert(holds_id(seq![transaction], transaction.id));
    assert(stored(sent) =~= seq![transaction]);
}

} // verus!
