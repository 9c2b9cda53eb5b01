//! What follows when a ledger is published.
use vstd::prelude::*;

verus! {

/// One thing that is done when a ledger is published.
#[derive(Clone, Copy, Debug, PartialEq, Eq, Structural)]
pub enum PublishedEffect {
    Note,
    /// Those who wait for closed ledgers are told.
    TellCloseListener,
    /// The subscribers of ledgers are told.
    TellLedgerStream,
    /// The subscribers of accepted transactions are told of this one.
    TellTransaction(usize),
    /// Those who heard of it when it was proposed are told that it is final.
    TellProposedTransaction(usize),
}

/// What is told of the first `n` transactions.
pub open spec fn told_transactions(n: int) -> Seq<PublishedEffect>
    decreases n,
{
    if n <= 0 {
        Seq::empty()
    } else {
        told_transactions(n - 1).push(PublishedEffect::TellTransaction((n - 1) as usize)).push(
            PublishedEffect::TellProposedTransaction((n - 1) as usize),
        )
    }
}

pub open spec fn told_listener(close_listener: bool) -> Seq<PublishedEffect> {
    if close_listener {
        seq![PublishedEffect::TellCloseListener]
    } else {
        Seq::empty()
    }
}

pub open spec fn told_subscribers(subscribers: bool, transactions: Option<usize>) -> Seq<PublishedEffect> {
    if subscribers {
        seq![PublishedEffect::TellLedgerStream] + (match transactions {
            Some(count) => told_transactions(count as int),
            None => Seq::empty(),
        })
    } else {
        Seq::empty()
    }
}

pub open spec fn spec_published_effects(
    close_listener: bool,
    subscribers: bool,
    transactions: Option<usize>,
) -> Seq<PublishedEffect> {
    seq![PublishedEffect::Note] + told_listener(close_listener) + told_subscribers(
        subscribers,
        transactions,
    )
}

/// What is done when a ledger is published, in order. `transactions` is how many it holds, if they
/// can be read.
pub fn on_published_ledger(close_listener: bool, subscribers: bool, transactions: Option<usize>) -> (r: Vec<
    PublishedEffect,
>)
    ensures
        r@ == spec_published_effects(close_listener, subscribers, transactions),
{
    let mut effects: Vec<PublishedEffect> = Vec::new();
    effects.push(PublishedEffect::Note);
    if close_listener {
        effects.push(PublishedEffect::TellCloseListener);
    }
    if subscribers {
        effects.push(PublishedEffect::TellLedgerStream);
        if let Some(count) = transactions {
            let ghost before = effects@;
            let mut i: usize = 0;
            while i < count
                invariant
                    i <= count,
                    effects@ == before + told_transactions(i as int),
                decreases count - i,
            {
                effects.push(PublishedEffect::TellTransaction(i));
                effects.push(PublishedEffect::TellProposedTransaction(i));
                i = i + 1;
                proof {
                    assert(effects@ =~= before + told_transactions(i as int));
                }
            }
        }
    }
    proof {
        assert(effects@ =~= spec_published_effects(close_listener, subscribers, transactions));
    }
    effects
}

/// Every transaction of a published ledger is told of twice, in its place: as accepted, and to
/// those who heard of it before.
pub proof fn every_transaction_is_told(n: int, i: int)
    requires
        0 <= i < n <= usize::MAX,
    ensures
        told_transactions(n).len() == 2 * n,
        told_transactions(n)[2 * i] == PublishedEffect::TellTransaction(i as usize),
        told_transactions(n)[2 * i + 1] == PublishedEffect::TellProposedTransaction(i as usize),
    decreases n,
{
    told_twice(n);
    if i < n - 1 {
        every_transaction_is_told(n - 1, i);
        told_twice(n - 1);
    } else {
        told_twice(n - 1);
    }
}

proof fn told_twice(n: int)
    requires
        0 <= n,
    ensures
        told_transactions(n).len() == 2 * n,
    decreases n,
{
    if n > 0 {
        told_twice(n - 1);
    }
}

} // verus!
