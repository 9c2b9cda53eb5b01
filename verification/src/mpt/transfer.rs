//! Who may move tokens to whom.
use vstd::prelude::*;
use crate::ids::{AccountID, MPTID, ViewError};
use crate::mpt::entry::{IssuanceRead, LedgerEntry, MPToken, MPTokenIssuance};
use crate::ord_map::OrdMap;
use crate::ter::{Ter, is_tes_success};
use crate::tx_type::TxType;

verus! {

/// How one holding of one account changed.
#[derive(Clone, Copy, Debug, PartialEq, Eq, Structural)]
pub struct MptTransferAmount {
    pub before: Option<u64>,
    pub after: Option<u64>,
    pub authorized_before: bool,
    pub authorized_after: bool,
    pub locked_before: bool,
    pub locked_after: bool,
}

/// An issuance and one of its holders: transfers are kept issuance by issuance, and within an
/// issuance holder by holder.
#[derive(Clone, Copy, Debug, PartialEq, Eq, Structural)]
pub struct HolderKey {
    pub issuance: MPTID,
    pub account: AccountID,
}

impl crate::ids::Key for HolderKey {
    open spec fn rank(self) -> int {
        self.issuance.rank() * 0x1_0000_0000_0000_0000_0000_0000_0000_0000_0000_0000int
            + self.account.rank()
    }

    proof fn rank_is_injective(self, other: Self) {
        self.issuance.rank_is_injective(other.issuance);
        self.account.rank_is_injective(other.account);
    }

    fn precedes(&self, other: &Self) -> (r: bool) {
        proof {
            self.issuance.rank_is_injective(other.issuance);
        }
        self.issuance.precedes(&other.issuance) || (!other.issuance.precedes(&self.issuance)
            && self.account.precedes(&other.account))
    }
}

impl MptTransferAmount {
    pub open spec fn spec_new() -> MptTransferAmount {
        MptTransferAmount {
            before: None,
            after: None,
            authorized_before: false,
            authorized_after: false,
            locked_before: false,
            locked_after: false,
        }
    }

    /// Nothing recorded yet.
    pub fn new() -> (r: MptTransferAmount)
        ensures
            r == MptTransferAmount::spec_new(),
    {
        MptTransferAmount {
            before: None,
            after: None,
            authorized_before: false,
            authorized_after: false,
            locked_before: false,
            locked_after: false,
        }
    }

    pub open spec fn amount_before(self) -> u64 {
        match self.before {
            Some(amount) => amount,
            None => 0,
        }
    }

    /// The holding is still there, with more than it had.
    pub open spec fn received(self) -> bool {
        self.after matches Some(after) && after > self.amount_before()
    }

    /// The holding is still there, with less than it had.
    pub open spec fn sent(self) -> bool {
        self.after matches Some(after) && after < self.amount_before()
    }
}

/// A record with the holding as it was, or as it is, put in.
pub open spec fn with_holding(amount: MptTransferAmount, token: MPToken, before: bool) -> MptTransferAmount {
    if before {
        MptTransferAmount {
            before: Some(token.amount),
            authorized_before: token.authorized,
            locked_before: token.locked,
            ..amount
        }
    } else {
        MptTransferAmount {
            after: Some(token.amount),
            authorized_after: token.authorized,
            locked_after: token.locked,
            ..amount
        }
    }
}

pub open spec fn holder_key(token: MPToken) -> HolderKey {
    HolderKey { issuance: token.issuance_id, account: token.account }
}

pub open spec fn transfer_of(
    transfers: Map<HolderKey, MptTransferAmount>,
    key: HolderKey,
) -> MptTransferAmount {
    if transfers.contains_key(key) {
        transfers[key]
    } else {
        MptTransferAmount::spec_new()
    }
}

/// Records one entry, as it was before the transaction or as it is after it. Only holdings
/// count.
pub fn record_mpt_transfer(
    transfers: &mut OrdMap<HolderKey, MptTransferAmount>,
    sle: &LedgerEntry,
    before: bool,
)
    requires
        old(transfers).wf(),
    ensures
        final(transfers).wf(),
        final(transfers)@ == (match *sle {
            LedgerEntry::MPToken(token) => old(transfers)@.insert(
                holder_key(token),
                with_holding(transfer_of(old(transfers)@, holder_key(token)), token, before),
            ),
            _ => old(transfers)@,
        }),
{
    if let LedgerEntry::MPToken(token) = sle {
        let key = HolderKey { issuance: token.issuance_id, account: token.account };
        let mut entry = transfers.get_or(key, MptTransferAmount::new());
        if before {
            entry.before = Some(token.amount);
            entry.authorized_before = token.authorized;
            entry.locked_before = token.locked;
        } else {
            entry.after = Some(token.amount);
            entry.authorized_after = token.authorized;
            entry.locked_after = token.locked;
        }
        transfers.insert(key, entry);
    }
}

pub open spec fn waives_can_transfer(t: TxType, fix_cleanup_3_2_0: bool) -> bool {
    t is AMM_WITHDRAW || (fix_cleanup_3_2_0 && (t is VAULT_WITHDRAW
        || t is LOAN_BROKER_COVER_WITHDRAW || t is LOAN_PAY))
}

/// The transaction type moves tokens even of an issuance that does not allow transfers.
pub fn mpt_transfer_waives_can_transfer(txn_type: TxType, fix_cleanup_3_2_0: bool) -> (r: bool)
    ensures
        r == waives_can_transfer(txn_type, fix_cleanup_3_2_0),
{
    txn_type == TxType::AMM_WITHDRAW || (fix_cleanup_3_2_0 && matches!(
        txn_type,
        TxType::VAULT_WITHDRAW | TxType::LOAN_BROKER_COVER_WITHDRAW | TxType::LOAN_PAY
    ))
}

pub open spec fn is_dex(t: TxType, cross_currency_payment: bool) -> bool {
    if t is PAYMENT {
        cross_currency_payment
    } else {
        t is AMM_CREATE || t is AMM_DEPOSIT || t is OFFER_CREATE
    }
}

/// The transaction trades tokens on the exchange.
pub fn mpt_transfer_is_dex(txn_type: TxType, cross_currency_payment: bool) -> (r: bool)
    ensures
        r == is_dex(txn_type, cross_currency_payment),
{
    if txn_type == TxType::PAYMENT {
        return cross_currency_payment;
    }
    matches!(txn_type, TxType::AMM_CREATE | TxType::AMM_DEPOSIT | TxType::OFFER_CREATE)
}

/// One holder of an issuance, with what the ledger says of it.
#[derive(Clone, Copy, Debug)]
pub struct HolderTransfer {
    pub amount: MptTransferAmount,
    /// Whether the holding is frozen.
    pub frozen: Result<bool, ViewError>,
    /// What asking for authorization comes to; it is asked only where the issuance requires it.
    pub authorization: Result<Ter, ViewError>,
}

/// The holders of one issuance that a transaction touched, in the order of their accounts, and
/// what a read of the issuance brings.
pub struct IssuanceTransfers {
    pub issuance: IssuanceRead,
    pub holders: Vec<HolderTransfer>,
}

/// What the ledger says of one recorded holder.
#[derive(Clone, Copy, Debug)]
pub struct HolderReads {
    pub issuance: IssuanceRead,
    pub frozen: Result<bool, ViewError>,
    pub authorization: Result<Ter, ViewError>,
}

/// The holders of one issuance, as a sequence.
pub struct IssuanceGroup {
    pub issuance: IssuanceRead,
    pub holders: Seq<HolderTransfer>,
}

impl View for IssuanceTransfers {
    type V = IssuanceGroup;

    open spec fn view(&self) -> IssuanceGroup {
        IssuanceGroup { issuance: self.issuance, holders: self.holders@ }
    }
}

pub open spec fn issuance_groups(groups: Seq<IssuanceTransfers>) -> Seq<IssuanceGroup> {
    groups.map_values(|t: IssuanceTransfers| t@)
}

pub open spec fn holder_transfer(amount: MptTransferAmount, reads: HolderReads) -> HolderTransfer {
    HolderTransfer { amount, frozen: reads.frozen, authorization: reads.authorization }
}

/// The first `n` records, put together issuance by issuance.
pub open spec fn grouped(
    entries: Seq<(HolderKey, MptTransferAmount)>,
    reads: Seq<HolderReads>,
    n: int,
) -> Seq<IssuanceGroup>
    decreases n,
{
    if n <= 0 {
        Seq::empty()
    } else {
        let groups = grouped(entries, reads, n - 1);
        let holder = holder_transfer(entries[n - 1].1, reads[n - 1]);
        if n >= 2 && entries[n - 2].0.issuance == entries[n - 1].0.issuance {
            let last = groups.last();
            groups.drop_last().push(
                IssuanceGroup { issuance: last.issuance, holders: last.holders.push(holder) },
            )
        } else {
            groups.push(IssuanceGroup { issuance: reads[n - 1].issuance, holders: seq![holder] })
        }
    }
}

/// The recorded transfers, issuance by issuance. `reads[i]` is what the ledger says of the `i`th
/// record; the issuance counts as it was read for its first holder.
pub fn group_transfers(
    transfers: &OrdMap<HolderKey, MptTransferAmount>,
    reads: &Vec<HolderReads>,
) -> (groups: Vec<IssuanceTransfers>)
    requires
        reads@.len() == transfers.entries@.len(),
    ensures
        issuance_groups(groups@) == grouped(transfers.entries@, reads@, reads@.len() as int),
{
    let mut groups: Vec<IssuanceTransfers> = Vec::new();
    let mut i: usize = 0;
    let ghost entries = transfers.entries@;
    proof {
        assert(issuance_groups(groups@) =~= grouped(entries, reads@, 0));
    }
    while i < transfers.entries.len()
        invariant
            entries == transfers.entries@,
            reads@.len() == entries.len(),
            i <= entries.len(),
            issuance_groups(groups@) == grouped(entries, reads@, i as int),
            i > 0 ==> groups@.len() > 0,
        decreases entries.len() - i,
    {
        let amount = transfers.entries[i].1;
        let read = reads[i];
        let holder = HolderTransfer {
            amount,
            frozen: read.frozen,
            authorization: read.authorization,
        };
        let ghost was = groups@;
        let same = i > 0 && transfers.entries[i - 1].0.issuance == transfers.entries[i].0.issuance;
        if same {
            if let Some(mut last) = groups.pop() {
                last.holders.push(holder);
                groups.push(last);
                proof {
                    assert(issuance_groups(groups@).drop_last() =~= was.drop_last().map_values(
                        |t: IssuanceTransfers| t@,
                    ));
                    assert(issuance_groups(groups@) =~= grouped(entries, reads@, i + 1));
                }
            }
        } else {
            let mut holders: Vec<HolderTransfer> = Vec::new();
            holders.push(holder);
            groups.push(IssuanceTransfers { issuance: read.issuance, holders });
            proof {
                assert(groups@.last().holders@ =~= seq![holder]);
                assert(issuance_groups(groups@) =~= grouped(entries, reads@, i + 1));
            }
        }
        i = i + 1;
    }
    groups
}

impl HolderTransfer {
    pub open spec fn moved(self) -> bool {
        self.amount.sent() || self.amount.received()
    }

    /// The first read that this holder needs and that failed.
    pub open spec fn read_error(self, req_auth: bool) -> Option<ViewError> {
        if !self.moved() {
            None
        } else {
            match self.frozen {
                Err(error) => Some(error),
                Ok(_) => if req_auth && self.authorization is Err {
                    Some(self.authorization->Err_0)
                } else {
                    None
                },
            }
        }
    }

    /// The holder may not take part in a transfer.
    pub open spec fn barred(self, req_auth: bool) -> bool {
        &&& self.moved()
        &&& {
            ||| self.frozen == Ok::<bool, ViewError>(true)
            ||| self.amount.locked_before
            ||| self.amount.locked_after
            ||| req_auth && !(self.authorization matches Ok(ter) && ter.success())
        }
    }
}

/// The first read error among the holders, in order.
pub open spec fn first_read_error(holders: Seq<HolderTransfer>, req_auth: bool) -> Option<ViewError>
    decreases holders.len(),
{
    if holders.len() == 0 {
        None
    } else if holders[0].read_error(req_auth) is Some {
        holders[0].read_error(req_auth)
    } else {
        first_read_error(holders.drop_first(), req_auth)
    }
}

/// What the transfers of one transaction are judged under.
#[derive(Clone, Copy, Debug, PartialEq, Eq, Structural)]
pub struct TransferRules {
    pub txn_type: TxType,
    pub cross_currency_payment: bool,
    pub fix_cleanup_3_2_0: bool,
    pub mptokens_v2_enabled: bool,
}

/// Somebody gave and somebody received, though the issuance or a holder bars it.
pub open spec fn transfer_barred(
    issuance: MPTokenIssuance,
    holders: Seq<HolderTransfer>,
    rules: TransferRules,
) -> bool {
    &&& exists|i: int| 0 <= i < holders.len() && (#[trigger] holders[i]).amount.sent()
    &&& exists|i: int| 0 <= i < holders.len() && (#[trigger] holders[i]).amount.received()
    &&& {
        ||| issuance.locked
        ||| exists|i: int|
            0 <= i < holders.len() && (#[trigger] holders[i]).barred(issuance.require_auth)
        ||| !issuance.can_transfer && !waives_can_transfer(rules.txn_type, rules.fix_cleanup_3_2_0)
        ||| is_dex(rules.txn_type, rules.cross_currency_payment) && !issuance.can_trade
    }
}

/// What one issuance comes to: a failed read, a barred transfer, or nothing against it.
#[derive(Clone, Copy, Debug, PartialEq, Eq, Structural)]
pub enum TransferVerdict {
    ReadFailed(ViewError),
    Barred,
    Clear,
}

pub open spec fn spec_verdict(
    issuance: IssuanceRead,
    holders: Seq<HolderTransfer>,
    rules: TransferRules,
) -> TransferVerdict {
    match issuance {
        IssuanceRead::Failed(error) => TransferVerdict::ReadFailed(error),
        IssuanceRead::Missing => TransferVerdict::Clear,
        IssuanceRead::Found(issuance) => match first_read_error(holders, issuance.require_auth) {
            Some(error) => TransferVerdict::ReadFailed(error),
            None => if transfer_barred(issuance, holders, rules) {
                TransferVerdict::Barred
            } else {
                TransferVerdict::Clear
            },
        },
    }
}

fn judge_issuance(transfers: &IssuanceTransfers, rules: &TransferRules) -> (verdict: TransferVerdict)
    ensures
        verdict == spec_verdict(transfers.issuance, transfers.holders@, *rules),
{
    let issuance = match transfers.issuance {
        IssuanceRead::Failed(error) => {
            return TransferVerdict::ReadFailed(error);
        },
        IssuanceRead::Missing => {
            return TransferVerdict::Clear;
        },
        IssuanceRead::Found(issuance) => issuance,
    };
    let can_transfer = issuance.can_transfer || mpt_transfer_waives_can_transfer(
        rules.txn_type,
        rules.fix_cleanup_3_2_0,
    );
    let req_auth = issuance.require_auth;
    let ghost holders = transfers.holders@;
    let mut senders: u16 = 0;
    let mut receivers: u16 = 0;
    let mut invalid_transfer = issuance.locked;
    let mut i: usize = 0;
    proof {
        assert(holders.skip(0) =~= holders);
    }
    while i < transfers.holders.len()
        invariant
            i <= holders.len(),
            holders == transfers.holders@,
            transfers.issuance == IssuanceRead::Found(issuance),
            req_auth == issuance.require_auth,
            first_read_error(holders, req_auth) == first_read_error(holders.skip(i as int), req_auth),
            (senders > 0) == exists|j: int| 0 <= j < i && (#[trigger] holders[j]).amount.sent(),
            (receivers > 0) == exists|j: int| 0 <= j < i && (#[trigger] holders[j]).amount.received(),
            invalid_transfer == (issuance.locked || exists|j: int|
                0 <= j < i && (#[trigger] holders[j]).barred(req_auth)),
        decreases holders.len() - i,
    {
        let holder = transfers.holders[i];
        proof {
            assert(holders.skip(i as int)[0] == holder);
            assert(holders.skip(i as int).drop_first() =~= holders.skip(i as int + 1));
        }
        if let Some(after) = holder.amount.after {
            let before: u64 = match holder.amount.before {
                Some(amount) => amount,
                None => 0,
            };
            if before != after {
                if after > before {
                    receivers = receivers.saturating_add(1);
                } else {
                    senders = senders.saturating_add(1);
                }
                let frozen = match holder.frozen {
                    Ok(frozen) => frozen,
                    Err(error) => {
                        return TransferVerdict::ReadFailed(error);
                    },
                };
                let authorized = if req_auth {
                    match holder.authorization {
                        Ok(ter) => is_tes_success(ter),
                        Err(error) => {
                            return TransferVerdict::ReadFailed(error);
                        },
                    }
                } else {
                    true
                };
                if frozen || holder.amount.locked_before || holder.amount.locked_after || !authorized {
                    invalid_transfer = true;
                }
                proof {
                    assert(holders[i as int].moved());
                }
            }
        }
        i = i + 1;
    }
    if senders > 0 && receivers > 0 && (invalid_transfer || !can_transfer || (mpt_transfer_is_dex(
        rules.txn_type,
        rules.cross_currency_payment,
    ) && !issuance.can_trade)) {
        TransferVerdict::Barred
    } else {
        TransferVerdict::Clear
    }
}

/// The first issuance, in order, against which there is something decides.
pub open spec fn first_verdict(groups: Seq<IssuanceGroup>, rules: TransferRules) -> TransferVerdict
    decreases groups.len(),
{
    if groups.len() == 0 {
        TransferVerdict::Clear
    } else {
        let verdict = spec_verdict(groups[0].issuance, groups[0].holders, rules);
        if verdict != TransferVerdict::Clear {
            verdict
        } else {
            first_verdict(groups.drop_first(), rules)
        }
    }
}

fn judge_groups(groups: &Vec<IssuanceTransfers>, rules: &TransferRules) -> (verdict: TransferVerdict)
    ensures
        verdict == first_verdict(issuance_groups(groups@), *rules),
{
    let ghost all = issuance_groups(groups@);
    let mut i: usize = 0;
    proof {
        assert(all.skip(0) =~= all);
    }
    while i < groups.len()
        invariant
            i <= all.len(),
            all == issuance_groups(groups@),
            first_verdict(all, *rules) == first_verdict(all.skip(i as int), *rules),
        decreases all.len() - i,
    {
        proof {
            assert(all.skip(i as int)[0] == groups@[i as int]@);
            assert(all.skip(i as int).drop_first() =~= all.skip(i as int + 1));
        }
        match judge_issuance(&groups[i], rules) {
            TransferVerdict::Clear => {},
            verdict => {
                return verdict;
            },
        }
        i = i + 1;
    }
    TransferVerdict::Clear
}

/// Whether the recorded transfers may stand. `reads[i]` is what the ledger says of the `i`th
/// record. A barred transfer is refused only under the second version of the token rules; a
/// clawback from a pool is not looked at.
pub fn validates_mpt_transfers(
    transfers: &OrdMap<HolderKey, MptTransferAmount>,
    reads: &Vec<HolderReads>,
    rules: TransferRules,
) -> (r: Result<bool, ViewError>)
    requires
        reads@.len() == transfers.entries@.len(),
    ensures
        r == (if rules.txn_type == TxType::AMM_CLAWBACK {
            Ok::<bool, ViewError>(true)
        } else {
            match first_verdict(
                grouped(transfers.entries@, reads@, reads@.len() as int),
                rules,
            ) {
                TransferVerdict::ReadFailed(error) => Err(error),
                TransferVerdict::Barred => Ok(!rules.mptokens_v2_enabled),
                TransferVerdict::Clear => Ok(true),
            }
        }),
{
    if rules.txn_type == TxType::AMM_CLAWBACK {
        return Ok(true);
    }
    let groups = group_transfers(transfers, reads);
    match judge_groups(&groups, &rules) {
        TransferVerdict::ReadFailed(error) => Err(error),
        TransferVerdict::Barred => Ok(!rules.mptokens_v2_enabled),
        TransferVerdict::Clear => Ok(true),
    }
}

/// A transaction that only credits holders, or only debits them, is never barred.
pub proof fn one_sided_changes_are_free(
    issuance: MPTokenIssuance,
    holders: Seq<HolderTransfer>,
    rules: TransferRules,
)
    requires
        (forall|i: int| 0 <= i < holders.len() ==> !(#[trigger] holders[i]).amount.sent()) || (
        forall|i: int| 0 <= i < holders.len() ==> !(#[trigger] holders[i]).amount.received()),
    ensures
        !transfer_barred(issuance, holders, rules),
{
}

/// A locked issuance lets nothing pass between holders.
pub proof fn locked_issuance_bars_transfers(
    issuance: MPTokenIssuance,
    holders: Seq<HolderTransfer>,
    rules: TransferRules,
    sender: int,
    receiver: int,
)
    requires
        issuance.locked,
        0 <= sender < holders.len(),
        0 <= receiver < holders.len(),
        holders[sender].amount.sent(),
        holders[receiver].amount.received(),
    ensures
        transfer_barred(issuance, holders, rules),
{
}

} // verus!
