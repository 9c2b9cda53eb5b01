//! Encrypted balances stay within what is outstanding.
use vstd::prelude::*;
use crate::ids::MPTID;
use crate::mpt::entry::{
    IssuanceRead, LedgerEntry, MAX_MP_TOKEN_AMOUNT, MPToken, MPTokenIssuance, max_mpt_token_amount,
    mpt_id_from_issuance, same_optional_bytes,
};
use crate::ord_map::OrdMap;
use crate::ter::{Ter, is_tes_success};
use crate::tx_type::TxType;

verus! {

/// How one issuance and its holdings changed.
#[derive(Clone, Copy, Debug, PartialEq, Eq, Structural)]
pub struct ConfidentialMptChange {
    pub mpt_amount_delta: i128,
    pub coa_delta: i128,
    pub outstanding_delta: i128,
    pub issuance: Option<MPTokenIssuance>,
    pub deleted_with_encrypted: bool,
    pub bad_consistency: bool,
    pub bad_coa: bool,
    pub changes_confidential_fields: bool,
    pub bad_version: bool,
}

/// A sum that leaves room for the amounts of one more entry.
pub const CONFIDENTIAL_DELTA_LIMIT: i128 = 0x3FFF_FFFF_FFFF_FFFF_FFFF_FFFF_FFFF_FFFF;

impl ConfidentialMptChange {
    pub open spec fn spec_new() -> ConfidentialMptChange {
        ConfidentialMptChange {
            mpt_amount_delta: 0,
            coa_delta: 0,
            outstanding_delta: 0,
            issuance: None,
            deleted_with_encrypted: false,
            bad_consistency: false,
            bad_coa: false,
            changes_confidential_fields: false,
            bad_version: false,
        }
    }

    /// Nothing recorded yet.
    pub fn new() -> (r: ConfidentialMptChange)
        ensures
            r == ConfidentialMptChange::spec_new(),
    {
        ConfidentialMptChange {
            mpt_amount_delta: 0,
            coa_delta: 0,
            outstanding_delta: 0,
            issuance: None,
            deleted_with_encrypted: false,
            bad_consistency: false,
            bad_coa: false,
            changes_confidential_fields: false,
            bad_version: false,
        }
    }

    /// The sums keep within their range.
    pub open spec fn in_range(self) -> bool {
        &&& -CONFIDENTIAL_DELTA_LIMIT <= self.mpt_amount_delta <= CONFIDENTIAL_DELTA_LIMIT
        &&& -CONFIDENTIAL_DELTA_LIMIT <= self.coa_delta <= CONFIDENTIAL_DELTA_LIMIT
        &&& -CONFIDENTIAL_DELTA_LIMIT <= self.outstanding_delta <= CONFIDENTIAL_DELTA_LIMIT
    }

    /// The sums have room for an entry as it was and as it is.
    pub open spec fn has_room(self) -> bool {
        let limit = CONFIDENTIAL_DELTA_LIMIT - MAX_MP_TOKEN_AMOUNT;
        &&& -limit <= self.mpt_amount_delta <= limit
        &&& -limit <= self.coa_delta <= limit
        &&& -limit <= self.outstanding_delta <= limit
    }
}

pub open spec fn spec_capped(value: u64) -> int {
    if value < MAX_MP_TOKEN_AMOUNT {
        value as int
    } else {
        MAX_MP_TOKEN_AMOUNT as int
    }
}

/// An amount, but no more than a token can have.
pub fn capped_delta(value: u64) -> (r: i128)
    ensures
        r == spec_capped(value),
{
    let max: u64 = max_mpt_token_amount();
    if value < max {
        value as i128
    } else {
        max as i128
    }
}

/// What the map holds under `id`, or nothing recorded.
pub open spec fn change_of(
    changes: Map<MPTID, ConfidentialMptChange>,
    id: MPTID,
) -> ConfidentialMptChange {
    if changes.contains_key(id) {
        changes[id]
    } else {
        ConfidentialMptChange::spec_new()
    }
}

/// An encrypted balance is there, and is not what it was.
pub open spec fn encrypted_field_changed(
    before: Option<LedgerEntry>,
    old_value: spec_fn(MPToken) -> Option<Seq<u8>>,
    new_value: Option<Seq<u8>>,
) -> bool {
    new_value is Some && !(before matches Some(LedgerEntry::MPToken(token)) && old_value(token) == new_value)
}

/// A holding as it was: its amount leaves the sum, and a deletion is noted where the holding
/// still had something.
pub open spec fn without_token(
    change: ConfidentialMptChange,
    is_delete: bool,
    token: MPToken,
) -> ConfidentialMptChange {
    ConfidentialMptChange {
        mpt_amount_delta: (change.mpt_amount_delta - spec_capped(token.amount)) as i128,
        deleted_with_encrypted: if is_delete {
            token.amount > 0 || token.has_encrypted_balance()
        } else {
            change.deleted_with_encrypted
        },
        ..change
    }
}

/// The encrypted balances of a holding do not go together: inbox, spending and issuer balance
/// come all three or not at all, and an auditor balance only with an issuer balance.
pub open spec fn inconsistent_balances(token: MPToken) -> bool {
    ||| (token.inbox() is Some) != (token.spending() is Some)
    ||| (token.inbox() is Some) != (token.issuer_balance() is Some)
    ||| token.auditor_balance() is Some && token.issuer_balance() is None
}

/// Some encrypted balance of the holding is new or has changed.
pub open spec fn changes_encrypted_balance(before: Option<LedgerEntry>, token: MPToken) -> bool {
    ||| encrypted_field_changed(before, |t: MPToken| t.inbox(), token.inbox())
    ||| encrypted_field_changed(before, |t: MPToken| t.spending(), token.spending())
    ||| encrypted_field_changed(before, |t: MPToken| t.issuer_balance(), token.issuer_balance())
    ||| encrypted_field_changed(before, |t: MPToken| t.auditor_balance(), token.auditor_balance())
}

/// A holding as it is.
pub open spec fn with_token(
    change: ConfidentialMptChange,
    before: Option<LedgerEntry>,
    token: MPToken,
) -> ConfidentialMptChange {
    ConfidentialMptChange {
        mpt_amount_delta: (change.mpt_amount_delta + spec_capped(token.amount)) as i128,
        bad_consistency: change.bad_consistency || inconsistent_balances(token),
        changes_confidential_fields: change.changes_confidential_fields
            || changes_encrypted_balance(before, token),
        ..change
    }
}

/// An issuance as it was.
pub open spec fn without_issuance(
    change: ConfidentialMptChange,
    issuance: MPTokenIssuance,
) -> ConfidentialMptChange {
    ConfidentialMptChange {
        coa_delta: (change.coa_delta - spec_capped(issuance.spec_confidential_outstanding())) as i128,
        outstanding_delta: (change.outstanding_delta - spec_capped(issuance.outstanding_amount)) as i128,
        ..change
    }
}

/// An issuance as it is.
pub open spec fn with_issuance(
    change: ConfidentialMptChange,
    issuance: MPTokenIssuance,
) -> ConfidentialMptChange {
    ConfidentialMptChange {
        coa_delta: (change.coa_delta + spec_capped(issuance.spec_confidential_outstanding())) as i128,
        outstanding_delta: (change.outstanding_delta + spec_capped(issuance.outstanding_amount)) as i128,
        issuance: Some(issuance),
        bad_coa: change.bad_coa || issuance.spec_confidential_outstanding()
            > issuance.outstanding_amount,
        ..change
    }
}

/// The spending balance of a holding changed, but its version did not.
pub open spec fn stale_version(before: MPToken, after: MPToken) -> bool {
    &&& before.spending() is Some
    &&& before.spending() != after.spending()
    &&& before.confidential_balance_version == after.confidential_balance_version
}

pub open spec fn record_before(
    changes: Map<MPTID, ConfidentialMptChange>,
    is_delete: bool,
    before: Option<LedgerEntry>,
) -> Map<MPTID, ConfidentialMptChange> {
    match before {
        Some(LedgerEntry::MPToken(token)) => changes.insert(
            token.issuance_id,
            without_token(change_of(changes, token.issuance_id), is_delete, token),
        ),
        Some(LedgerEntry::MPTokenIssuance(issuance)) => changes.insert(
            issuance.spec_id(),
            without_issuance(change_of(changes, issuance.spec_id()), issuance),
        ),
        _ => changes,
    }
}

pub open spec fn record_after(
    changes: Map<MPTID, ConfidentialMptChange>,
    before: Option<LedgerEntry>,
    after: LedgerEntry,
) -> Map<MPTID, ConfidentialMptChange> {
    match after {
        LedgerEntry::MPToken(token) => changes.insert(
            token.issuance_id,
            with_token(change_of(changes, token.issuance_id), before, token),
        ),
        LedgerEntry::MPTokenIssuance(issuance) => changes.insert(
            issuance.spec_id(),
            with_issuance(change_of(changes, issuance.spec_id()), issuance),
        ),
        _ => changes,
    }
}

/// The map after one changed entry has been recorded: first as it was, then as it is.
pub open spec fn recorded_confidential(
    changes: Map<MPTID, ConfidentialMptChange>,
    is_delete: bool,
    before: Option<LedgerEntry>,
    after: LedgerEntry,
) -> Map<MPTID, ConfidentialMptChange> {
    let both = record_after(record_before(changes, is_delete, before), before, after);
    match (before, after) {
        (Some(LedgerEntry::MPToken(was)), LedgerEntry::MPToken(is)) if stale_version(was, is)
            => both.insert(
            is.issuance_id,
            ConfidentialMptChange { bad_version: true, ..both[is.issuance_id] },
        ),
        _ => both,
    }
}

pub open spec fn confidential_has_room(changes: Map<MPTID, ConfidentialMptChange>) -> bool {
    forall|id: MPTID| #[trigger] changes.contains_key(id) ==> changes[id].has_room()
}

pub open spec fn confidential_in_range(changes: Map<MPTID, ConfidentialMptChange>) -> bool {
    forall|id: MPTID| #[trigger] changes.contains_key(id) ==> changes[id].in_range()
}

fn encrypted_changed(
    had_token: bool,
    old_value: &Option<Vec<u8>>,
    new_value: &Option<Vec<u8>>,
) -> (r: bool)
    ensures
        r == (crate::mpt::entry::optional_bytes(*new_value) is Some && !(had_token
            && crate::mpt::entry::optional_bytes(*old_value) == crate::mpt::entry::optional_bytes(*new_value))),
{
    new_value.is_some() && !(had_token && same_optional_bytes(old_value, new_value))
}

fn changes_encrypted(before: &Option<LedgerEntry>, token: &MPToken) -> (r: bool)
    ensures
        r == changes_encrypted_balance(*before, *token),
{
    match before {
        Some(LedgerEntry::MPToken(was)) => {
            encrypted_changed(true, &was.confidential_balance_inbox, &token.confidential_balance_inbox)
                || encrypted_changed(
                true,
                &was.confidential_balance_spending,
                &token.confidential_balance_spending,
            ) || encrypted_changed(
                true,
                &was.issuer_encrypted_balance,
                &token.issuer_encrypted_balance,
            ) || encrypted_changed(
                true,
                &was.auditor_encrypted_balance,
                &token.auditor_encrypted_balance,
            )
        },
        _ => {
            token.confidential_balance_inbox.is_some()
                || token.confidential_balance_spending.is_some()
                || token.issuer_encrypted_balance.is_some()
                || token.auditor_encrypted_balance.is_some()
        },
    }
}

fn same_version(a: Option<u32>, b: Option<u32>) -> (r: bool)
    ensures
        r == (a == b),
{
    match (a, b) {
        (Some(x), Some(y)) => x == y,
        (None, None) => true,
        _ => false,
    }
}

fn drop_token(change: ConfidentialMptChange, is_delete: bool, token: &MPToken) -> (r: ConfidentialMptChange)
    requires
        change.has_room(),
    ensures
        r == without_token(change, is_delete, *token),
{
    let mut change = change;
    change.mpt_amount_delta = change.mpt_amount_delta - capped_delta(token.amount);
    if is_delete {
        change.deleted_with_encrypted = token.amount > 0
            || token.confidential_balance_spending.is_some()
            || token.confidential_balance_inbox.is_some()
            || token.issuer_encrypted_balance.is_some()
            || token.auditor_encrypted_balance.is_some();
    }
    change
}

fn put_token(
    change: ConfidentialMptChange,
    before: &Option<LedgerEntry>,
    token: &MPToken,
) -> (r: ConfidentialMptChange)
    requires
        change.in_range(),
    ensures
        r == with_token(change, *before, *token),
{
    let mut change = change;
    change.mpt_amount_delta = change.mpt_amount_delta + capped_delta(token.amount);
    let issuer = token.issuer_encrypted_balance.is_some();
    let inbox = token.confidential_balance_inbox.is_some();
    let spending = token.confidential_balance_spending.is_some();
    let auditor = token.auditor_encrypted_balance.is_some();
    if inbox != spending || inbox != issuer || (auditor && !issuer) {
        change.bad_consistency = true;
    }
    if changes_encrypted(before, token) {
        change.changes_confidential_fields = true;
    }
    change
}

fn drop_issuance(change: ConfidentialMptChange, issuance: &MPTokenIssuance) -> (r: ConfidentialMptChange)
    requires
        change.has_room(),
    ensures
        r == without_issuance(change, *issuance),
{
    let mut change = change;
    if let Some(coa) = issuance.confidential_outstanding_amount {
        change.coa_delta = change.coa_delta - capped_delta(coa);
    }
    change.outstanding_delta = change.outstanding_delta - capped_delta(issuance.outstanding_amount);
    change
}

fn put_issuance(change: ConfidentialMptChange, issuance: &MPTokenIssuance) -> (r: ConfidentialMptChange)
    requires
        change.in_range(),
    ensures
        r == with_issuance(change, *issuance),
{
    let mut change = change;
    let coa: u64 = issuance.confidential_outstanding();
    if issuance.confidential_outstanding_amount.is_some() {
        change.coa_delta = change.coa_delta + capped_delta(coa);
    }
    change.outstanding_delta = change.outstanding_delta + capped_delta(issuance.outstanding_amount);
    change.issuance = Some(*issuance);
    if coa > issuance.outstanding_amount {
        change.bad_coa = true;
    }
    change
}

fn has_stale_version(before: &MPToken, after: &MPToken) -> (r: bool)
    ensures
        r == stale_version(*before, *after),
{
    before.confidential_balance_spending.is_some() && !same_optional_bytes(
        &before.confidential_balance_spending,
        &after.confidential_balance_spending,
    ) && same_version(before.confidential_balance_version, after.confidential_balance_version)
}

/// Records one changed entry: what it was, where it was there before, and what it is.
pub fn record_confidential_mpt(
    changes: &mut OrdMap<MPTID, ConfidentialMptChange>,
    is_delete: bool,
    before: &Option<LedgerEntry>,
    after: &LedgerEntry,
)
    requires
        old(changes).wf(),
        confidential_has_room(old(changes)@),
    ensures
        final(changes).wf(),
        final(changes)@ == recorded_confidential(old(changes)@, is_delete, *before, *after),
{
    match before {
        Some(LedgerEntry::MPToken(token)) => {
            let change = changes.get_or(token.issuance_id, ConfidentialMptChange::new());
            changes.insert(token.issuance_id, drop_token(change, is_delete, token));
        },
        Some(LedgerEntry::MPTokenIssuance(issuance)) => {
            let id = mpt_id_from_issuance(issuance);
            let change = changes.get_or(id, ConfidentialMptChange::new());
            changes.insert(id, drop_issuance(change, issuance));
        },
        _ => {},
    }
    let ghost recorded = changes@;
    proof {
        assert(recorded == record_before(old(changes)@, is_delete, *before));
    }
    match after {
        LedgerEntry::MPToken(token) => {
            let change = changes.get_or(token.issuance_id, ConfidentialMptChange::new());
            changes.insert(token.issuance_id, put_token(change, before, token));
        },
        LedgerEntry::MPTokenIssuance(issuance) => {
            let id = mpt_id_from_issuance(issuance);
            let change = changes.get_or(id, ConfidentialMptChange::new());
            changes.insert(id, put_issuance(change, issuance));
        },
        _ => {},
    }
    proof {
        assert(changes@ == record_after(recorded, *before, *after));
    }
    if let Some(LedgerEntry::MPToken(was)) = before {
        if let LedgerEntry::MPToken(is) = after {
            if has_stale_version(was, is) {
                let mut change = changes.get_or(is.issuance_id, ConfidentialMptChange::new());
                change.bad_version = true;
                changes.insert(is.issuance_id, change);
            }
        }
    }
}

/// The issuance that the change is judged by: the recorded one, or else the one read.
pub open spec fn judged_by(change: ConfidentialMptChange, read: IssuanceRead) -> IssuanceRead {
    match change.issuance {
        Some(issuance) => IssuanceRead::Found(issuance),
        None => read,
    }
}

/// The change may stand. One whose issuance could not be read may not; one whose issuance is
/// gone may.
pub open spec fn confidential_change_valid(
    change: ConfidentialMptChange,
    read: IssuanceRead,
    confidential_tx: bool,
) -> bool {
    match judged_by(change, read) {
        IssuanceRead::Failed(_) => false,
        IssuanceRead::Missing => true,
        IssuanceRead::Found(issuance) => {
            &&& change.deleted_with_encrypted ==> issuance.spec_confidential_outstanding() == 0
            &&& !change.bad_consistency && !change.bad_coa && !change.bad_version
            &&& change.changes_confidential_fields ==> issuance.can_hold_confidential_balance
            &&& change.coa_delta != 0 ==> change.mpt_amount_delta + change.coa_delta
                == change.outstanding_delta
            &&& change.coa_delta == 0 && confidential_tx ==> change.mpt_amount_delta == 0
                && change.outstanding_delta == 0
        },
    }
}

fn validates_confidential_change(
    change: &ConfidentialMptChange,
    read: &IssuanceRead,
    confidential_tx: bool,
) -> (r: bool)
    requires
        change.in_range(),
    ensures
        r == confidential_change_valid(*change, *read, confidential_tx),
{
    let issuance = match change.issuance {
        Some(issuance) => issuance,
        None => match read {
            IssuanceRead::Found(issuance) => *issuance,
            IssuanceRead::Missing => {
                return true;
            },
            IssuanceRead::Failed(_) => {
                return false;
            },
        },
    };
    if change.deleted_with_encrypted && issuance.confidential_outstanding() > 0 {
        return false;
    }
    if change.bad_consistency || change.bad_coa || change.bad_version {
        return false;
    }
    if change.changes_confidential_fields && !issuance.can_hold_confidential_balance {
        return false;
    }
    if change.coa_delta != 0 {
        change.mpt_amount_delta + change.coa_delta == change.outstanding_delta
    } else if confidential_tx {
        change.mpt_amount_delta == 0 && change.outstanding_delta == 0
    } else {
        true
    }
}

/// Whether every recorded change may stand. `reads[i]` is what a read of the issuance of the
/// `i`th change brings; it counts only where the change has no issuance recorded. A transaction
/// that did not succeed is not checked.
pub fn validates_confidential_mpt(
    reads: &Vec<IssuanceRead>,
    txn_type: TxType,
    result: Ter,
    changes: &OrdMap<MPTID, ConfidentialMptChange>,
) -> (r: bool)
    requires
        changes.wf(),
        confidential_in_range(changes@),
        reads@.len() == changes.entries@.len(),
    ensures
        r == (result.success() ==> forall|i: int|
            0 <= i < changes.entries@.len() ==> confidential_change_valid(
                (#[trigger] changes.entries@[i]).1,
                reads@[i],
                txn_type.confidential_mpt(),
            )),
{
    if !is_tes_success(result) {
        return true;
    }
    let confidential_tx = txn_type.is_confidential_mpt();
    let mut i: usize = 0;
    while i < changes.entries.len()
        invariant
            changes.wf(),
            confidential_in_range(changes@),
            reads@.len() == changes.entries@.len(),
            result.success(),
            confidential_tx == txn_type.confidential_mpt(),
            i <= changes.entries@.len(),
            forall|j: int|
                0 <= j < i ==> confidential_change_valid(
                    (#[trigger] changes.entries@[j]).1,
                    reads@[j],
                    confidential_tx,
                ),
        decreases changes.entries@.len() - i,
    {
        let change = changes.entries[i].1;
        proof {
            changes.entry_is_viewed(i as int);
            assert(changes@.contains_key(changes.entries@[i as int].0));
        }
        if !validates_confidential_change(&change, &reads[i], confidential_tx) {
            assert(!confidential_change_valid(changes.entries@[i as int].1, reads@[i as int], confidential_tx));
            return false;
        }
        i = i + 1;
    }
    true
}

/// A holding that is recorded without any change moves no sum and breaks no rule, provided its
/// balances go together.
pub proof fn unchanged_token_is_neutral(
    changes: Map<MPTID, ConfidentialMptChange>,
    token: MPToken,
)
    requires
        confidential_has_room(changes),
        !inconsistent_balances(token),
    ensures
        change_of(
            recorded_confidential(
                changes,
                false,
                Some(LedgerEntry::MPToken(token)),
                LedgerEntry::MPToken(token),
            ),
            token.issuance_id,
        ) == change_of(changes, token.issuance_id),
{
}

/// An issuance that is recorded without any change moves no sum.
pub proof fn unchanged_issuance_is_neutral(
    changes: Map<MPTID, ConfidentialMptChange>,
    issuance: MPTokenIssuance,
)
    requires
        confidential_has_room(changes),
    ensures
        ({
            let id = issuance.spec_id();
            let was = change_of(changes, id);
            let is = change_of(
                recorded_confidential(
                    changes,
                    false,
                    Some(LedgerEntry::MPTokenIssuance(issuance)),
                    LedgerEntry::MPTokenIssuance(issuance),
                ),
                id,
            );
            is.coa_delta == was.coa_delta && is.outstanding_delta == was.outstanding_delta
                && is.mpt_amount_delta == was.mpt_amount_delta
        }),
{
}

/// Once a rule has been found broken, no later record mends it.
pub proof fn faults_are_kept(
    changes: Map<MPTID, ConfidentialMptChange>,
    is_delete: bool,
    before: Option<LedgerEntry>,
    after: LedgerEntry,
    id: MPTID,
)
    requires
        changes.contains_key(id),
    ensures
        ({
            let was = changes[id];
            let is = change_of(recorded_confidential(changes, is_delete, before, after), id);
            &&& was.bad_consistency ==> is.bad_consistency
            &&& was.bad_coa ==> is.bad_coa
            &&& was.bad_version ==> is.bad_version
            &&& was.changes_confidential_fields ==> is.changes_confidential_fields
        }),
{
}

} // verus!
