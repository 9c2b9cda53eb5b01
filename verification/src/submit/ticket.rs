//! Taking the place of a transaction in the order of its account.
use vstd::prelude::*;
use crate::ids::AccountID;
use crate::submit::calls::ShellCall;
use crate::submit::checks::{AccountRoot, SeqProxy};
use crate::submit::flags::{Present, Read};
use crate::ter::Ter;

verus! {

/// An owner count moved by an adjustment, kept within what it can be.
pub fn submit_confine_owner_count(current: u32, adjustment: i32) -> (r: u32)
    ensures
        r == (if current + adjustment < 0 {
            0
        } else if current + adjustment > u32::MAX {
            u32::MAX as int
        } else {
            current + adjustment
        }),
{
    let result: i64 = current as i64 + adjustment as i64;
    if result < 0 {
        0
    } else if result > u32::MAX as i64 {
        u32::MAX
    } else {
        result as u32
    }
}

/// What using up a ticket meets in the ledger.
#[derive(Clone, Copy, Debug, PartialEq, Eq, Structural)]
pub struct TicketRun {
    pub ticket: Read<Present>,
    /// The ticket was taken out of the directory of its owner.
    pub unlisted: bool,
    /// The ticket itself was erased.
    pub erased: bool,
}

/// What the account keeps once its place has been taken.
#[derive(Clone, Copy, Debug, PartialEq, Eq, Structural)]
pub struct AccountOrder {
    /// The next sequence, where a sequence was used.
    pub sequence: Option<u32>,
    pub ticket_count: Option<u32>,
    pub owner_count: u32,
}

pub open spec fn ticket_fault(root: AccountRoot, run: TicketRun) -> bool {
    !(run.ticket is Found) || !run.unlisted || root.ticket_count is None || !run.erased
}

/// The account with one ticket less.
pub open spec fn without_ticket(root: AccountRoot) -> AccountOrder {
    AccountOrder {
        sequence: None,
        ticket_count: if root.ticket_count == Some(1u32) {
            None
        } else {
            Some((root.ticket_count->Some_0 - 1) as u32)
        },
        owner_count: if root.owner_count == 0 {
            0
        } else {
            (root.owner_count - 1) as u32
        },
    }
}

/// What is asked for while a ticket is used up.
pub open spec fn ticket_calls(
    account: AccountID,
    proxy: SeqProxy,
    root: AccountRoot,
    run: TicketRun,
) -> Seq<ShellCall> {
    let unlist = ShellCall::UnlistTicket { account, proxy };
    if !(run.ticket is Found) {
        seq![]
    } else if !run.unlisted || root.ticket_count is None {
        seq![unlist]
    } else {
        seq![unlist, ShellCall::EraseTicket { account, proxy }]
    }
}

/// Uses up a ticket. One that is not there any more, or cannot be taken out, means that the
/// ledger is bad: that it was there has been established before.
pub fn delete_submit_ticket(
    account: AccountID,
    proxy: SeqProxy,
    root: &AccountRoot,
    run: &TicketRun,
    calls: &mut Vec<ShellCall>,
) -> (r: Result<AccountOrder, Ter>)
    requires
        root.ticket_count != Some(0u32),
    ensures
        r == (if ticket_fault(*root, *run) {
            Err::<AccountOrder, Ter>(Ter::TEF_BAD_LEDGER)
        } else {
            Ok(without_ticket(*root))
        }),
        final(calls)@ == old(calls)@ + ticket_calls(account, proxy, *root, *run),
{
    match run.ticket {
        Read::Found(_) => {},
        _ => {
            return Err(Ter::TEF_BAD_LEDGER);
        },
    }
    calls.push(ShellCall::UnlistTicket { account, proxy });
    if !run.unlisted {
        return Err(Ter::TEF_BAD_LEDGER);
    }
    let count: u32 = match root.ticket_count {
        Some(count) => count,
        None => {
            return Err(Ter::TEF_BAD_LEDGER);
        },
    };
    let ticket_count = if count == 1 {
        None
    } else {
        Some(count - 1)
    };
    calls.push(ShellCall::EraseTicket { account, proxy });
    if !run.erased {
        return Err(Ter::TEF_BAD_LEDGER);
    }
    Ok(
        AccountOrder {
            sequence: None,
            ticket_count,
            owner_count: submit_confine_owner_count(root.owner_count, -1),
        },
    )
}

pub open spec fn order_taken(proxy: SeqProxy, root: AccountRoot, run: TicketRun) -> Result<AccountOrder, Ter> {
    match proxy {
        SeqProxy::Sequence(sequence) => Ok(
            AccountOrder {
                sequence: Some((sequence + 1) as u32),
                ticket_count: root.ticket_count,
                owner_count: root.owner_count,
            },
        ),
        SeqProxy::Ticket(_) => if ticket_fault(root, run) {
            Err(Ter::TEF_BAD_LEDGER)
        } else {
            Ok(without_ticket(root))
        },
    }
}

/// Only a ticket is asked to be taken out of the ledger.
pub open spec fn order_calls(
    account: AccountID,
    proxy: SeqProxy,
    root: AccountRoot,
    run: TicketRun,
) -> Seq<ShellCall> {
    match proxy {
        SeqProxy::Sequence(_) => seq![],
        SeqProxy::Ticket(_) => ticket_calls(account, proxy, root, run),
    }
}

/// The place can be taken: there is a sequence after it, and a ticket is counted.
pub open spec fn order_can_be_taken(proxy: SeqProxy, root: AccountRoot) -> bool {
    match proxy {
        SeqProxy::Sequence(sequence) => sequence < u32::MAX,
        SeqProxy::Ticket(_) => root.ticket_count != Some(0u32),
    }
}

/// Takes the place of the transaction: its sequence, or its ticket.
pub fn consume_seq_proxy(
    account: AccountID,
    proxy: SeqProxy,
    root: &AccountRoot,
    run: &TicketRun,
    calls: &mut Vec<ShellCall>,
) -> (r: Result<AccountOrder, Ter>)
    requires
        order_can_be_taken(proxy, *root),
    ensures
        r == order_taken(proxy, *root, *run),
        final(calls)@ == old(calls)@ + order_calls(account, proxy, *root, *run),
{
    match proxy {
        SeqProxy::Sequence(sequence) => Ok(
            AccountOrder {
                sequence: Some(sequence + 1),
                ticket_count: root.ticket_count,
                owner_count: root.owner_count,
            },
        ),
        SeqProxy::Ticket(_) => delete_submit_ticket(account, proxy, root, run, calls),
    }
}

/// Whether the balance covers the reserve of an account whose owner count moves by
/// `adjust_reserve`. `reserve_drops` is the reserve for that count; a count below zero is never
/// covered.
pub fn is_reserve_sufficient(
    balance_drops: i64,
    effective_owner_count: u32,
    adjust_reserve: i8,
    reserve_drops: i64,
) -> (r: bool)
    ensures
        r == (effective_owner_count + adjust_reserve >= 0 && balance_drops >= reserve_drops),
{
    let owner_count: i64 = effective_owner_count as i64 + adjust_reserve as i64;
    owner_count >= 0 && balance_drops >= reserve_drops
}

} // verus!
