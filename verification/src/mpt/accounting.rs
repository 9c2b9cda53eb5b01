//! What is outstanding of an issuance is what its holders have.
use vstd::prelude::*;
use crate::ids::MPTID;
use crate::mpt::entry::{
    LedgerEntry, MAX_MP_TOKEN_AMOUNT, MPToken, MPTokenIssuance, max_mpt_token_amount,
    mpt_id_from_issuance, mpt_max_amount,
};
use crate::ord_map::OrdMap;
use crate::tx_type::TxType;

verus! {

/// How the amounts of one issuance changed.
#[derive(Clone, Copy, Debug, PartialEq, Eq, Structural)]
pub struct MptAccounting {
    pub outstanding_before: i128,
    pub outstanding_after: i128,
    pub amount_delta: i128,
    pub overflow: bool,
}

/// A sum that leaves room for the amounts of one more entry.
pub const MPT_DELTA_LIMIT: i128 = 0x3FFF_FFFF_FFFF_FFFF_FFFF_FFFF_FFFF_FFFF;

impl MptAccounting {
    pub open spec fn spec_new() -> MptAccounting {
        MptAccounting { outstanding_before: 0, outstanding_after: 0, amount_delta: 0, overflow: false }
    }

    /// Nothing recorded yet.
    pub fn new() -> (r: MptAccounting)
        ensures
            r == MptAccounting::spec_new(),
    {
        MptAccounting { outstanding_before: 0, outstanding_after: 0, amount_delta: 0, overflow: false }
    }

    /// The amounts are those of at most as many entries as the sums have room for.
    pub open spec fn in_range(self) -> bool {
        &&& 0 <= self.outstanding_before <= u64::MAX
        &&& 0 <= self.outstanding_after <= u64::MAX
        &&& -MPT_DELTA_LIMIT <= self.amount_delta <= MPT_DELTA_LIMIT
    }

    /// No amount is beyond its limit, and the amount outstanding moved with the holdings.
    pub open spec fn balanced(self) -> bool {
        !self.overflow && self.outstanding_after == self.outstanding_before + self.amount_delta
    }
}

/// What the map holds under `id`, or nothing recorded.
pub open spec fn accounting_of(data: Map<MPTID, MptAccounting>, id: MPTID) -> MptAccounting {
    if data.contains_key(id) {
        data[id]
    } else {
        MptAccounting::spec_new()
    }
}

/// The holder's amounts do not fit together into what a token can have.
pub open spec fn holding_overflows(token: MPToken) -> bool {
    token.amount + token.locked_amount > MAX_MP_TOKEN_AMOUNT
}

/// An accounting with one issuance added to it.
pub open spec fn with_issuance(
    entry: MptAccounting,
    issuance: MPTokenIssuance,
    before: bool,
) -> MptAccounting {
    let outstanding = issuance.outstanding_amount as i128;
    MptAccounting {
        overflow: entry.overflow || issuance.outstanding_amount > issuance.spec_max_amount(),
        outstanding_before: if before { outstanding } else { entry.outstanding_before },
        outstanding_after: if before { entry.outstanding_after } else { outstanding },
        amount_delta: entry.amount_delta,
    }
}

/// An accounting with one holding added to it: what it had before counts against it.
pub open spec fn with_token(entry: MptAccounting, token: MPToken, before: bool) -> MptAccounting {
    if holding_overflows(token) {
        MptAccounting { overflow: true, ..entry }
    } else {
        let total = token.amount + token.locked_amount;
        MptAccounting {
            amount_delta: (if before { entry.amount_delta - total } else { entry.amount_delta + total }) as i128,
            ..entry
        }
    }
}

/// The map after one entry has been recorded.
pub open spec fn recorded_accounting(
    data: Map<MPTID, MptAccounting>,
    sle: LedgerEntry,
    before: bool,
) -> Map<MPTID, MptAccounting> {
    match sle {
        LedgerEntry::MPTokenIssuance(issuance) => data.insert(
            issuance.spec_id(),
            with_issuance(accounting_of(data, issuance.spec_id()), issuance, before),
        ),
        LedgerEntry::MPToken(token) => data.insert(
            token.issuance_id,
            with_token(accounting_of(data, token.issuance_id), token, before),
        ),
        _ => data,
    }
}

/// The sum that the entry adds to has room for it.
pub open spec fn accounting_has_room(data: Map<MPTID, MptAccounting>, sle: LedgerEntry) -> bool {
    sle matches LedgerEntry::MPToken(token) ==> {
        let delta = accounting_of(data, token.issuance_id).amount_delta;
        -MPT_DELTA_LIMIT + MAX_MP_TOKEN_AMOUNT <= delta <= MPT_DELTA_LIMIT - MAX_MP_TOKEN_AMOUNT
    }
}

/// Records one entry, as it was before the transaction or as it is after it.
pub fn record_mpt_accounting(data: &mut OrdMap<MPTID, MptAccounting>, sle: &LedgerEntry, before: bool)
    requires
        old(data).wf(),
        accounting_has_room(old(data)@, *sle),
    ensures
        final(data).wf(),
        final(data)@ == recorded_accounting(old(data)@, *sle, before),
{
    match sle {
        LedgerEntry::MPTokenIssuance(issuance) => {
            let id = mpt_id_from_issuance(issuance);
            let mut entry = data.get_or(id, MptAccounting::new());
            if issuance.outstanding_amount > mpt_max_amount(issuance) {
                entry.overflow = true;
            }
            if before {
                entry.outstanding_before = issuance.outstanding_amount as i128;
            } else {
                entry.outstanding_after = issuance.outstanding_amount as i128;
            }
            data.insert(id, entry);
        },
        LedgerEntry::MPToken(token) => {
            let id = token.issuance_id;
            let mut entry = data.get_or(id, MptAccounting::new());
            let max_amount: u64 = max_mpt_token_amount();
            if token.amount > max_amount || token.locked_amount > max_amount
                || token.locked_amount > max_amount.saturating_sub(token.amount) {
                entry.overflow = true;
            } else {
                let holder_total: i128 = token.amount as i128 + token.locked_amount as i128;
                if before {
                    entry.amount_delta = entry.amount_delta - holder_total;
                } else {
                    entry.amount_delta = entry.amount_delta + holder_total;
                }
            }
            data.insert(id, entry);
        },
        _ => {},
    }
}

/// Every issuance in the map is balanced.
pub open spec fn all_balanced(data: Map<MPTID, MptAccounting>) -> bool {
    forall|id: MPTID| #[trigger] data.contains_key(id) ==> data[id].balanced()
}

/// Every accounting in the map keeps within its sums.
pub open spec fn accounting_in_range(data: Map<MPTID, MptAccounting>) -> bool {
    forall|id: MPTID| #[trigger] data.contains_key(id) ==> data[id].in_range()
}

/// Whether the accounting allows the transaction: where it is not enforced it always does.
pub fn validates_mpt_accounting(data: &OrdMap<MPTID, MptAccounting>, enforce: bool) -> (r: bool)
    requires
        data.wf(),
        accounting_in_range(data@),
    ensures
        r == (!enforce || all_balanced(data@)),
{
    if !enforce {
        return true;
    }
    let mut i: usize = 0;
    while i < data.entries.len()
        invariant
            enforce,
            data.wf(),
            accounting_in_range(data@),
            i <= data.entries@.len(),
            forall|j: int| 0 <= j < i ==> (#[trigger] data.entries@[j]).1.balanced(),
        decreases data.entries@.len() - i,
    {
        let entry = data.entries[i].1;
        proof {
            data.entry_is_viewed(i as int);
        }
        if entry.overflow || entry.outstanding_after != entry.outstanding_before + entry.amount_delta {
            proof {
                assert(data@.contains_key(data.entries@[i as int].0));
                assert(!data@[data.entries@[i as int].0].balanced());
            }
            return false;
        }
        i = i + 1;
    }
    proof {
        assert forall|id: MPTID| #[trigger] data@.contains_key(id) implies data@[id].balanced() by {
            let j = choose|j: int|
                0 <= j < data.entries@.len() && (#[trigger] data.entries@[j]).0 == id;
            assert(data.entries@[j].0 == id);
            data.entry_is_viewed(j);
        }
    }
    true
}

/// Whether the accounting allows a transaction of this type. Confidential transfers move value
/// between public amounts and encrypted balances, and are accounted for elsewhere.
pub fn validates_mpt_accounting_for_transaction(
    data: &OrdMap<MPTID, MptAccounting>,
    enforce: bool,
    txn_type: TxType,
) -> (r: bool)
    requires
        data.wf(),
        accounting_in_range(data@),
    ensures
        r == (txn_type.confidential_mpt() || !enforce || all_balanced(data@)),
{
    if txn_type.is_confidential_mpt() {
        return true;
    }
    validates_mpt_accounting(data, enforce)
}

/// Recording an entry keeps the sums within their range.
pub proof fn recording_keeps_range(data: Map<MPTID, MptAccounting>, sle: LedgerEntry, before: bool)
    requires
        accounting_in_range(data),
        accounting_has_room(data, sle),
    ensures
        accounting_in_range(recorded_accounting(data, sle, before)),
{
}

/// An entry recorded both as it was and as it is, without a change of its holding, leaves the
/// sum over the holdings of its issuance where it was.
pub proof fn unchanged_holding_moves_nothing(data: Map<MPTID, MptAccounting>, token: MPToken)
    requires
        accounting_in_range(data),
        accounting_has_room(data, LedgerEntry::MPToken(token)),
        !holding_overflows(token),
    ensures
        ({
            let once = recorded_accounting(data, LedgerEntry::MPToken(token), true);
            let twice = recorded_accounting(once, LedgerEntry::MPToken(token), false);
            accounting_of(twice, token.issuance_id) == accounting_of(data, token.issuance_id)
        }),
{
}

/// Moving an amount from one holder to another keeps a balanced issuance balanced.
pub proof fn transfer_keeps_balance(
    data: Map<MPTID, MptAccounting>,
    sender_before: MPToken,
    sender_after: MPToken,
    receiver_before: MPToken,
    receiver_after: MPToken,
)
    requires
        sender_before.issuance_id == sender_after.issuance_id,
        sender_before.issuance_id == receiver_before.issuance_id,
        sender_before.issuance_id == receiver_after.issuance_id,
        sender_before.amount + sender_before.locked_amount + receiver_before.amount
            + receiver_before.locked_amount == sender_after.amount + sender_after.locked_amount
            + receiver_after.amount + receiver_after.locked_amount,
        !holding_overflows(sender_before),
        !holding_overflows(sender_after),
        !holding_overflows(receiver_before),
        !holding_overflows(receiver_after),
        -MPT_DELTA_LIMIT + 2 * MAX_MP_TOKEN_AMOUNT <= accounting_of(data, sender_before.issuance_id).amount_delta,
        accounting_of(data, sender_before.issuance_id).amount_delta <= MPT_DELTA_LIMIT - 2 * MAX_MP_TOKEN_AMOUNT,
    ensures
        ({
            let id = sender_before.issuance_id;
            let one = recorded_accounting(data, LedgerEntry::MPToken(sender_before), true);
            let two = recorded_accounting(one, LedgerEntry::MPToken(sender_after), false);
            let three = recorded_accounting(two, LedgerEntry::MPToken(receiver_before), true);
            let four = recorded_accounting(three, LedgerEntry::MPToken(receiver_after), false);
            accounting_of(four, id).balanced() == accounting_of(data, id).balanced()
        }),
{
}

} // verus!
