//! What is asked of the ledger while a transaction is being applied.
use vstd::prelude::*;
use crate::ids::{AccountID, Uint256};
use crate::submit::checks::SeqProxy;
use crate::ter::Ter;

verus! {

/// The account of a transaction, once its place and its fee have been taken.
#[derive(Clone, Copy, Debug, PartialEq, Eq, Structural)]
pub struct AccountChange {
    pub account: AccountID,
    /// The next sequence, where a sequence was used.
    pub sequence: Option<u32>,
    pub ticket_count: Option<u32>,
    pub owner_count: u32,
    pub balance: Option<i64>,
}

/// What the invariants are checked over.
#[derive(Clone, Copy, Debug, PartialEq, Eq, Structural)]
pub enum InvariantScope {
    /// Everything that the handler did.
    Handler,
    /// The fee and the place alone.
    Fee,
    /// What the cleanup removed.
    Cleanup,
}

/// A state of the ledger of its own, on top of the one before it. What is done in it stays only
/// where it is kept.
#[derive(Clone, Copy, Debug, PartialEq, Eq, Structural)]
pub enum Scope {
    /// The handler, and that the account remembers the transaction.
    Handler,
    /// What the cleanup removes.
    Cleanup,
    /// The transaction with its fee.
    Transaction,
    /// One transaction of a batch, by its index.
    Inner(usize),
    /// All the transactions of a batch.
    Batch,
    /// The transaction with all that belongs to it.
    Whole,
}

/// The kinds of entries that a cleanup removes.
#[derive(Clone, Copy, Debug, PartialEq, Eq, Structural)]
pub enum RemovedKind {
    Offer,
    NFTokenOffer,
    TrustLine,
    Credential,
}

/// One thing that is asked for.
#[derive(Clone, Copy, Debug, PartialEq, Eq, Structural)]
pub enum ShellCall {
    /// The ticket is to leave the directory of its owner.
    UnlistTicket { account: AccountID, proxy: SeqProxy },
    EraseTicket { account: AccountID, proxy: SeqProxy },
    /// What a sponsor has left for fees; none where nothing is left.
    UpdateSponsorship { left: Option<i64> },
    /// What another account that pays has left.
    UpdatePayer { account: AccountID, balance: i64 },
    UpdateAccount(AccountChange),
    /// Drops that are nobody's any more.
    DestroyXrp { drops: i64 },
    /// What has changed so far is taken down for the invariants.
    CapturePrefix,
    /// The account remembers the transaction.
    Chain { account: AccountID, id: Uint256 },
    /// The handler runs. It is told the balance before the fee.
    Dispatch { pre_fee_balance: Option<i64> },
    /// The account is put back to what it was.
    RestoreAccount { account: AccountID },
    /// The invariants are checked for a result and a fee.
    CheckInvariants { scope: InvariantScope, result: Ter, fee: i64 },
    Remove { kind: RemovedKind, index: Uint256 },
    /// The effects of the transaction, or of one of a batch, are written down.
    Describe { inner: Option<usize>, delivered: Option<u64> },
    /// What is asked for from here on is done in a state of its own.
    Open(Scope),
    /// What was done in the state is put into the one below it.
    Keep(Scope),
    /// What was done in the state is gone. A state that is still open in the end is dropped too.
    Drop(Scope),
}

/// The call changes the ledger. What a handler does is what its run changes.
pub open spec fn writes(call: ShellCall) -> bool {
    match call {
        ShellCall::CapturePrefix | ShellCall::CheckInvariants { .. } | ShellCall::Describe { .. }
        | ShellCall::Open(_) | ShellCall::Keep(_) | ShellCall::Drop(_) => false,
        _ => true,
    }
}

/// A call is made in the state: the state has been opened, and neither kept nor dropped yet.
pub open spec fn made_in(calls: Seq<ShellCall>, scope: Scope, i: int) -> bool {
    exists|j: int|
        0 <= j < i && (#[trigger] calls[j]) == ShellCall::Open(scope) && forall|k: int|
            j < k < i ==> (#[trigger] calls[k]) != ShellCall::Keep(scope) && calls[k]
                != ShellCall::Drop(scope)
}

/// What a call does stays: every state that it is made in is kept later.
pub open spec fn stays(calls: Seq<ShellCall>, i: int) -> bool {
    forall|scope: Scope| #[trigger]
        made_in(calls, scope, i) ==> calls.skip(i).contains(ShellCall::Keep(scope))
}

} // verus!
