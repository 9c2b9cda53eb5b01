//! What the token rules let through, and what they do not.
use vstd::prelude::*;
use crate::ids::{AccountID, MPTID, Uint256, ViewError, make_mpt_id};
use crate::mpt::accounting::{
    MptAccounting, accounting_has_room, accounting_of, all_balanced, recorded_accounting,
};
use crate::mpt::confidential::{
    ConfidentialMptChange, capped_delta, change_of, confidential_change_valid,
    confidential_has_room, recorded_confidential,
};
use crate::mpt::entry::{
    IssuanceRead, LedgerEntry, MPToken, MPTokenIssuance, max_mpt_token_amount, mpt_max_amount,
    same_optional_bytes, same_optional_h256,
};
use crate::mpt::lifecycle::{
    LifecycleRules, MptIssuanceLifecycle, VaultAccountReads, asks_for_vault, counted,
    deleted_vault_holding, is_vault_pseudo_account, lifecycle_counts_valid,
    record_mpt_issuance_lifecycle, validates_mpt_issuance_lifecycle,
};
use crate::mpt::transfer::{
    HolderKey, HolderReads, HolderTransfer, IssuanceGroup, MptTransferAmount, TransferRules,
    TransferVerdict, first_read_error, first_verdict, grouped, holder_key, record_mpt_transfer,
    spec_verdict, transfer_of, with_holding,
};
use crate::ord_map::OrdMap;
use crate::ter::Ter;
use crate::tx_type::TxType;

verus! {

/// A holder that authorizes itself creates its one holding or deletes its one holding, and does
/// nothing else: just then the authorization is let through.
pub proof fn an_authorization_is_one_holding(
    rules: LifecycleRules,
    l: MptIssuanceLifecycle,
)
    requires
        !l.token_created_by_issuer,
    ensures
        lifecycle_counts_valid(
            TxType::MPTOKEN_AUTHORIZE,
            Ter::TES_SUCCESS,
            false,
            rules,
            l,
        ) <==> l.issuances_created == 0 && l.issuances_deleted == 0 && ((l.tokens_created == 1
            && l.tokens_deleted == 0) || (l.tokens_created == 0 && l.tokens_deleted == 1)),
{
}

/// An issuer that authorizes a holder neither creates nor deletes anything.
pub proof fn an_issuers_authorization_touches_nothing(
    rules: LifecycleRules,
    l: MptIssuanceLifecycle,
)
    requires
        !l.token_created_by_issuer,
    ensures
        lifecycle_counts_valid(
            TxType::MPTOKEN_AUTHORIZE,
            Ter::TES_SUCCESS,
            true,
            rules,
            l,
        ) <==> l.issuances_created == 0 && l.issuances_deleted == 0 && l.tokens_created == 0
            && l.tokens_deleted == 0,
{
}

/// Creating an issuance, or a vault, creates one issuance and deletes none; destroying one, or a
/// vault, deletes one and creates none. What becomes of holdings on the way is free.
pub proof fn issuances_come_and_go_one_by_one(
    rules: LifecycleRules,
    holder: bool,
    l: MptIssuanceLifecycle,
    t: TxType,
)
    requires
        !l.token_created_by_issuer,
    ensures
        t == TxType::MPTOKEN_ISSUANCE_CREATE || t == TxType::VAULT_CREATE ==> (
        lifecycle_counts_valid(t, Ter::TES_SUCCESS, holder, rules, l) <==> l.issuances_created == 1
            && l.issuances_deleted == 0),
        t == TxType::MPTOKEN_ISSUANCE_DESTROY || t == TxType::VAULT_DELETE ==> (
        lifecycle_counts_valid(t, Ter::TES_SUCCESS, holder, rules, l) <==> l.issuances_created == 0
            && l.issuances_deleted == 1),
{
}

/// The transactions of vaults, loans and brokers may create or delete holdings on the way, of
/// nobody that they name: under the lending rules at most one, and else as many as they do.
pub proof fn authorizing_on_the_way(
    rules: LifecycleRules,
    holder: bool,
    l: MptIssuanceLifecycle,
    t: TxType,
)
    requires
        !l.token_created_by_issuer,
        t == TxType::VAULT_DEPOSIT || t == TxType::VAULT_WITHDRAW || t == TxType::LOAN_BROKER_SET || t
            == TxType::LOAN_BROKER_DELETE || t == TxType::LOAN_BROKER_COVER_WITHDRAW || t
            == TxType::LOAN_SET || t == TxType::LOAN_PAY || (t == TxType::ESCROW_FINISH && (
        rules.single_asset_vault_enabled || rules.lending_protocol_enabled)) || ((t
            == TxType::AMM_WITHDRAW || t == TxType::AMM_CLAWBACK) && !rules.mptokens_v2_enabled),
    ensures
        ({
            let valid = lifecycle_counts_valid(t, Ter::TES_SUCCESS, holder, rules, l);
            &&& valid ==> l.issuances_created == 0 && l.issuances_deleted == 0
            &&& valid && rules.lending_protocol_enabled ==> l.tokens_created + l.tokens_deleted <= 1
            &&& valid && holder ==> l.tokens_created == 0 && l.tokens_deleted == 0
            &&& l.issuances_created == 0 && l.issuances_deleted == 0 && !holder && (
            !rules.lending_protocol_enabled || l.tokens_created + l.tokens_deleted <= 1) ==> valid
            &&& l.issuances_created == 0 && l.issuances_deleted == 0 && l.tokens_created == 0
                && l.tokens_deleted == 0 ==> valid
        }),
{
}

/// Under the second version of the rules a withdrawal from a pool, and a clawback from it, may
/// create one holding and delete two; a withdrawal that names a holder creates none.
pub proof fn pools_may_touch_both_sides(
    rules: LifecycleRules,
    holder: bool,
    l: MptIssuanceLifecycle,
    t: TxType,
    result: Ter,
)
    requires
        !l.token_created_by_issuer,
        rules.mptokens_v2_enabled,
        t == TxType::AMM_WITHDRAW || t == TxType::AMM_CLAWBACK,
        result == Ter::TES_SUCCESS || result == Ter::TEC_INCOMPLETE,
    ensures
        lifecycle_counts_valid(t, result, holder, rules, l) <==> l.issuances_created == 0
            && l.issuances_deleted == 0 && l.tokens_deleted <= 2 && (l.tokens_created == 0 || (
        l.tokens_created == 1 && !(holder && t == TxType::AMM_WITHDRAW))),
{
}

/// Payments and offers create as many holdings as they need, a cashed check one and a new pool two;
/// they delete none, and name no holder.
pub proof fn payments_only_create_holdings(
    rules: LifecycleRules,
    l: MptIssuanceLifecycle,
    t: TxType,
)
    requires
        !l.token_created_by_issuer,
    ensures
        ({
            let valid = lifecycle_counts_valid(t, Ter::TES_SUCCESS, false, rules, l);
            let clean = l.issuances_created == 0 && l.issuances_deleted == 0 && l.tokens_deleted
                == 0;
            &&& t == TxType::PAYMENT || t == TxType::OFFER_CREATE ==> (valid <==> clean)
            &&& t == TxType::CHECK_CASH ==> (valid <==> clean && l.tokens_created <= 1)
            &&& t == TxType::AMM_CREATE ==> (valid <==> clean && l.tokens_created <= 2)
        }),
        t == TxType::PAYMENT || t == TxType::OFFER_CREATE || t == TxType::CHECK_CASH || t
            == TxType::AMM_CREATE ==> !lifecycle_counts_valid(
            t,
            Ter::TES_SUCCESS,
            true,
            rules,
            l,
        ),
{
}

/// Deleting a pool deletes at most two holdings, and a clawback from a vault at most one.
pub proof fn deletions_of_holdings(
    rules: LifecycleRules,
    holder: bool,
    l: MptIssuanceLifecycle,
)
    requires
        !l.token_created_by_issuer,
    ensures
        lifecycle_counts_valid(TxType::AMM_DELETE, Ter::TES_SUCCESS, holder, rules, l) <==> l.issuances_created
            == 0 && l.issuances_deleted == 0 && l.tokens_created == 0 && l.tokens_deleted <= 2,
        lifecycle_counts_valid(TxType::VAULT_CLAWBACK, Ter::TES_SUCCESS, holder, rules, l)
            <==> l.issuances_created == 0 && l.issuances_deleted == 0 && l.tokens_created == 0
            && l.tokens_deleted <= 1,
{
}

/// Every other transaction leaves all issuances and holdings in place; but an escrow that is
/// finished before there are vaults and loans is not looked at.
pub proof fn other_transactions_leave_tokens_alone(
    rules: LifecycleRules,
    holder: bool,
    l: MptIssuanceLifecycle,
    t: TxType,
)
    requires
        !l.token_created_by_issuer,
        t != TxType::MPTOKEN_ISSUANCE_CREATE,
        t != TxType::VAULT_CREATE,
        t != TxType::MPTOKEN_ISSUANCE_DESTROY,
        t != TxType::VAULT_DELETE,
        t != TxType::MPTOKEN_AUTHORIZE,
        t != TxType::AMM_CLAWBACK,
        t != TxType::AMM_WITHDRAW,
        t != TxType::VAULT_DEPOSIT,
        t != TxType::VAULT_WITHDRAW,
        t != TxType::LOAN_BROKER_SET,
        t != TxType::LOAN_BROKER_DELETE,
        t != TxType::LOAN_BROKER_COVER_WITHDRAW,
        t != TxType::LOAN_SET,
        t != TxType::LOAN_PAY,
        t != TxType::PAYMENT,
        t != TxType::OFFER_CREATE,
        t != TxType::CHECK_CASH,
        t != TxType::AMM_CREATE,
        t != TxType::AMM_DELETE,
        t != TxType::VAULT_CLAWBACK,
    ensures
        t != TxType::ESCROW_FINISH ==> (lifecycle_counts_valid(
            t,
            Ter::TES_SUCCESS,
            holder,
            rules,
            l,
        ) <==> l.issuances_created == 0 && l.issuances_deleted == 0 && l.tokens_created == 0
            && l.tokens_deleted == 0),
        t == TxType::ESCROW_FINISH && !rules.single_asset_vault_enabled
            && !rules.lending_protocol_enabled ==> lifecycle_counts_valid(
            t,
            Ter::TES_SUCCESS,
            holder,
            rules,
            l,
        ),
{
}

/// An issuer never holds its own tokens once there are vaults or loans; before that nobody asks. A
/// transaction that did not succeed is not held to anything, except, under the second version of
/// the rules, one that is incomplete.
pub proof fn whose_counts_are_looked_at(
    rules: LifecycleRules,
    holder: bool,
    l: MptIssuanceLifecycle,
    t: TxType,
    result: Ter,
)
    ensures
        l.token_created_by_issuer && (rules.single_asset_vault_enabled
            || rules.lending_protocol_enabled) ==> !lifecycle_counts_valid(
            t,
            Ter::TES_SUCCESS,
            holder,
            rules,
            l,
        ),
        !rules.single_asset_vault_enabled && !rules.lending_protocol_enabled ==> lifecycle_counts_valid(
            t,
            result,
            holder,
            rules,
            l,
        ) == lifecycle_counts_valid(
            t,
            result,
            holder,
            rules,
            MptIssuanceLifecycle { token_created_by_issuer: false, ..l },
        ),
        result != Ter::TES_SUCCESS && !(rules.mptokens_v2_enabled && result == Ter::TEC_INCOMPLETE)
            ==> lifecycle_counts_valid(t, result, holder, rules, l),
        rules.mptokens_v2_enabled ==> lifecycle_counts_valid(
            t,
            Ter::TEC_INCOMPLETE,
            holder,
            rules,
            l,
        ) == lifecycle_counts_valid(t, Ter::TES_SUCCESS, holder, rules, l),
{
}

/// A new issuance, a new holding, a deleted issuance and a deleted holding are counted, each once
/// and as what it is; everything else changes no count.
pub proof fn comings_and_goings_are_counted(
    l: MptIssuanceLifecycle,
    t: TxType,
    is_delete: bool,
    before: Option<LedgerEntry>,
    after: Option<LedgerEntry>,
    deleted: LedgerEntry,
)
    requires
        l.issuances_created < u32::MAX,
        l.issuances_deleted < u32::MAX,
        l.tokens_created < u32::MAX,
        l.tokens_deleted < u32::MAX,
    ensures
        ({
            let next = counted(l, t, is_delete, before, after, deleted);
            &&& next.issuances_created - l.issuances_created == (if before is None && (
            after matches Some(LedgerEntry::MPTokenIssuance(_))) {
                1int
            } else {
                0
            })
            &&& next.tokens_created - l.tokens_created == (if before is None && (
            after matches Some(LedgerEntry::MPToken(_))) {
                1int
            } else {
                0
            })
            &&& next.issuances_deleted - l.issuances_deleted == (if is_delete && (
            deleted matches LedgerEntry::MPTokenIssuance(_)) {
                1int
            } else {
                0
            })
            &&& next.tokens_deleted - l.tokens_deleted == (if is_delete && (
            deleted matches LedgerEntry::MPToken(_)) {
                1int
            } else {
                0
            })
        }),
{
}

/// A holding that its own issuer creates is noticed, and no other is. A reference to the holding of
/// a vault is noticed where a new issuance has one that no vault came with, and where it changes.
pub proof fn faults_of_issuances_are_noticed(
    l: MptIssuanceLifecycle,
    t: TxType,
    is_delete: bool,
    before: Option<LedgerEntry>,
    after: Option<LedgerEntry>,
    deleted: LedgerEntry,
)
    ensures
        ({
            let next = counted(l, t, is_delete, before, after, deleted);
            &&& before is None ==> (after matches Some(LedgerEntry::MPToken(token)) ==> (
            next.token_created_by_issuer <==> l.token_created_by_issuer || token.account
                == token.issuance_id.issuer))
            &&& before is Some || !(after matches Some(LedgerEntry::MPToken(_)))
                ==> next.token_created_by_issuer == l.token_created_by_issuer
            &&& before is None ==> (after matches Some(LedgerEntry::MPTokenIssuance(issuance)) ==> {
                &&& next.reference_holding_set_on_create <==> l.reference_holding_set_on_create || (
                issuance.reference_holding is Some && t != TxType::VAULT_CREATE)
                &&& next.reference_holding_mutated == l.reference_holding_mutated
            })
            &&& before matches Some(LedgerEntry::MPTokenIssuance(was)) ==> (after matches Some(
                LedgerEntry::MPTokenIssuance(is),
            ) ==> {
                &&& next.reference_holding_mutated <==> l.reference_holding_mutated
                    || was.reference_holding != is.reference_holding
                &&& next.reference_holding_set_on_create == l.reference_holding_set_on_create
            })
            &&& next.vault_holding_deleted == l.vault_holding_deleted
        }),
{
}

/// A deleted holding is that of a vault where its account is a vault's, and a deleted trust line
/// where one of its two accounts is; nobody asks where the vault itself is deleted.
pub proof fn holdings_of_vaults_are_told(deleted: LedgerEntry, low: bool, high: bool, t: TxType)
    ensures
        ({
            let reads = VaultAccountReads { first: Ok(low), second: Ok(high) };
            let told = deleted_vault_holding(deleted, reads);
            &&& deleted is MPToken ==> told == Ok::<bool, ViewError>(low)
            &&& deleted is RippleState ==> told == Ok::<bool, ViewError>(low || high)
            &&& deleted is MPTokenIssuance || deleted is Other ==> told == Ok::<bool, ViewError>(
                false,
            )
        }),
        asks_for_vault(t, true) <==> t != TxType::VAULT_DELETE,
        !asks_for_vault(t, false),
{
}

/// What an issuance has outstanding is taken down as it was and as it is, and is too much where it
/// is more than the issuance allows itself, or more than any may.
pub proof fn issuances_are_taken_down(
    data: Map<MPTID, MptAccounting>,
    issuance: MPTokenIssuance,
    before: bool,
)
    ensures
        ({
            let id = MPTID { sequence: issuance.sequence, issuer: issuance.issuer };
            let was = accounting_of(data, id);
            let is = accounting_of(
                recorded_accounting(data, LedgerEntry::MPTokenIssuance(issuance), before),
                id,
            );
            let most: u64 = match issuance.maximum_amount {
                Some(most) => most,
                None => 0x7FFF_FFFF_FFFF_FFFF,
            };
            &&& before ==> is.outstanding_before == issuance.outstanding_amount
                && is.outstanding_after == was.outstanding_after
            &&& !before ==> is.outstanding_after == issuance.outstanding_amount
                && is.outstanding_before == was.outstanding_before
            &&& is.amount_delta == was.amount_delta
            &&& is.overflow <==> was.overflow || issuance.outstanding_amount > most
        }),
{
}

/// A holding counts with all that it has, free and locked: against the sum as it was and for it as
/// it is. Holdings of other issuances are left alone.
pub proof fn holdings_are_taken_down(
    data: Map<MPTID, MptAccounting>,
    token: MPToken,
    before: bool,
    other: MPTID,
)
    requires
        accounting_has_room(data, LedgerEntry::MPToken(token)),
    ensures
        ({
            let next = recorded_accounting(data, LedgerEntry::MPToken(token), before);
            let was = accounting_of(data, token.issuance_id);
            let is = accounting_of(next, token.issuance_id);
            let fits = token.amount + token.locked_amount <= 0x7FFF_FFFF_FFFF_FFFF;
            &&& fits && before ==> is.amount_delta == was.amount_delta - token.amount
                - token.locked_amount
            &&& fits && !before ==> is.amount_delta == was.amount_delta + token.amount
                + token.locked_amount
            &&& !fits ==> is.amount_delta == was.amount_delta
            &&& is.overflow <==> was.overflow || !fits
            &&& is.outstanding_before == was.outstanding_before
            &&& is.outstanding_after == was.outstanding_after
            &&& other != token.issuance_id ==> accounting_of(next, other) == accounting_of(
                data,
                other,
            )
        }),
{
}

/// Issuing to a holder keeps an issuance balanced just where as much more is outstanding as the
/// holder has more, and where all amounts are within their limits.
pub proof fn issuing_is_balanced(
    was: MPTokenIssuance,
    is: MPTokenIssuance,
    held: MPToken,
    holds: MPToken,
)
    requires
        was.sequence == is.sequence,
        was.issuer == is.issuer,
        held.issuance_id.sequence == was.sequence,
        held.issuance_id.issuer == was.issuer,
        holds.issuance_id == held.issuance_id,
        was.maximum_amount is None,
        is.maximum_amount is None,
        was.outstanding_amount <= 0x7FFF_FFFF_FFFF_FFFF,
        is.outstanding_amount <= 0x7FFF_FFFF_FFFF_FFFF,
        held.amount + held.locked_amount <= 0x7FFF_FFFF_FFFF_FFFF,
        holds.amount + holds.locked_amount <= 0x7FFF_FFFF_FFFF_FFFF,
    ensures
        ({
            let one = recorded_accounting(
                Map::empty(),
                LedgerEntry::MPTokenIssuance(was),
                true,
            );
            let two = recorded_accounting(one, LedgerEntry::MPTokenIssuance(is), false);
            let three = recorded_accounting(two, LedgerEntry::MPToken(held), true);
            let four = recorded_accounting(three, LedgerEntry::MPToken(holds), false);
            all_balanced(four) <==> is.outstanding_amount - was.outstanding_amount == holds.amount
                + holds.locked_amount - held.amount - held.locked_amount
        }),
{
    let one = recorded_accounting(Map::empty(), LedgerEntry::MPTokenIssuance(was), true);
    let two = recorded_accounting(one, LedgerEntry::MPTokenIssuance(is), false);
    let three = recorded_accounting(two, LedgerEntry::MPToken(held), true);
    let four = recorded_accounting(three, LedgerEntry::MPToken(holds), false);
    let id = held.issuance_id;
    assert(was.spec_id() == id);
    assert(four.contains_key(id));
    assert(forall|k: MPTID| #[trigger] four.contains_key(k) ==> k == id);
}

/// Which transactions move value between public amounts and encrypted balances.
pub proof fn confidential_transactions(t: TxType)
    ensures
        t.confidential_mpt() <==> t == TxType::CONFIDENTIAL_MPT_CONVERT || t
            == TxType::CONFIDENTIAL_MPT_MERGE_INBOX || t == TxType::CONFIDENTIAL_MPT_CONVERT_BACK || t
            == TxType::CONFIDENTIAL_MPT_SEND || t == TxType::CONFIDENTIAL_MPT_CLAWBACK,
{
}

/// A holding is taken down as it was and as it is, and the one does not touch the other.
pub proof fn a_record_holds_both_sides(
    record: MptTransferAmount,
    was: MPToken,
    is: MPToken,
)
    ensures
        ({
            let once = with_holding(record, was, true);
            let twice = with_holding(once, is, false);
            &&& once.after == record.after && once.authorized_after == record.authorized_after
                && once.locked_after == record.locked_after
            &&& twice.before == Some(was.amount)
            &&& twice.after == Some(is.amount)
            &&& twice.authorized_before == was.authorized
            &&& twice.authorized_after == is.authorized
            &&& twice.locked_before == was.locked
            &&& twice.locked_after == is.locked
            &&& twice.sent() <==> is.amount < was.amount
            &&& twice.received() <==> is.amount > was.amount
        }),
{
}

/// A holder whose holding is gone neither gave nor received; a new one received what it has.
pub proof fn new_and_deleted_holdings(record: MptTransferAmount)
    ensures
        record.after is None ==> !record.sent() && !record.received(),
        record.before is None ==> !record.sent() && (record.received() <==> (
        record.after matches Some(amount) && amount > 0)),
{
}

proof fn good_holders_read(holders: Seq<HolderTransfer>, req_auth: bool)
    requires
        forall|i: int|
            0 <= i < holders.len() ==> (#[trigger] holders[i]).frozen is Ok
                && holders[i].authorization is Ok,
    ensures
        first_read_error(holders, req_auth) is None,
    decreases holders.len(),
{
    if holders.len() > 0 {
        assert(holders[0].frozen is Ok);
        assert forall|i: int| 0 <= i < holders.drop_first().len() implies (
        #[trigger] holders.drop_first()[i]).frozen is Ok && holders.drop_first()[i].authorization is Ok by {
            assert(holders[i + 1].frozen is Ok);
        }
        good_holders_read(holders.drop_first(), req_auth);
    }
}

/// Tokens that may be transferred are: the issuance is not locked and lets them be, and every
/// holder that takes part is free to.
pub proof fn free_holders_may_transfer(
    issuance: MPTokenIssuance,
    holders: Seq<HolderTransfer>,
    rules: TransferRules,
)
    requires
        !issuance.locked,
        issuance.can_transfer,
        issuance.can_trade,
        forall|i: int|
            0 <= i < holders.len() ==> (#[trigger] holders[i]).frozen == Ok::<bool, ViewError>(
                false,
            ) && !holders[i].amount.locked_before && !holders[i].amount.locked_after
                && holders[i].authorization == Ok::<Ter, ViewError>(Ter::TES_SUCCESS),
    ensures
        spec_verdict(IssuanceRead::Found(issuance), holders, rules) == TransferVerdict::Clear,
{
    good_holders_read(holders, issuance.require_auth);
}

/// Between two holders nothing passes where one of those that take part is frozen or locked, or is
/// not authorized though the issuance asks for that.
pub proof fn barred_holders_may_not_transfer(
    issuance: MPTokenIssuance,
    holders: Seq<HolderTransfer>,
    rules: TransferRules,
    sender: int,
    receiver: int,
    barred: int,
)
    requires
        0 <= sender < holders.len(),
        0 <= receiver < holders.len(),
        barred == sender || barred == receiver,
        holders[sender].amount.before matches Some(had) && (
        holders[sender].amount.after matches Some(has) && has < had),
        holders[receiver].amount.after matches Some(has) && has > (
        match holders[receiver].amount.before {
            Some(had) => had,
            None => 0,
        }),
        forall|i: int|
            0 <= i < holders.len() ==> (#[trigger] holders[i]).frozen is Ok
                && holders[i].authorization is Ok,
        ({
            let holder = holders[barred];
            ||| holder.frozen == Ok::<bool, ViewError>(true)
            ||| holder.amount.locked_before
            ||| holder.amount.locked_after
            ||| issuance.require_auth && holder.authorization != Ok::<Ter, ViewError>(
                Ter::TES_SUCCESS,
            )
        }),
    ensures
        spec_verdict(IssuanceRead::Found(issuance), holders, rules) == TransferVerdict::Barred,
{
    good_holders_read(holders, issuance.require_auth);
    assert(holders[sender].amount.sent());
    assert(holders[receiver].amount.received());
    assert(holders[barred].barred(issuance.require_auth));
}

/// An issuance that lets nothing be transferred bars every transfer, except a withdrawal from a
/// pool and, since the cleanup of the rules, one from a vault or of cover, and a payment on a loan.
pub proof fn who_may_transfer_the_untransferable(
    issuance: MPTokenIssuance,
    holders: Seq<HolderTransfer>,
    rules: TransferRules,
    sender: int,
    receiver: int,
)
    requires
        !issuance.locked,
        !issuance.can_transfer,
        issuance.can_trade,
        0 <= sender < holders.len(),
        0 <= receiver < holders.len(),
        holders[sender].amount.sent(),
        holders[receiver].amount.received(),
        forall|i: int|
            0 <= i < holders.len() ==> (#[trigger] holders[i]).frozen == Ok::<bool, ViewError>(
                false,
            ) && !holders[i].amount.locked_before && !holders[i].amount.locked_after
                && holders[i].authorization == Ok::<Ter, ViewError>(Ter::TES_SUCCESS),
    ensures
        spec_verdict(IssuanceRead::Found(issuance), holders, rules) == TransferVerdict::Clear
            <==> rules.txn_type == TxType::AMM_WITHDRAW || (rules.fix_cleanup_3_2_0 && (
        rules.txn_type == TxType::VAULT_WITHDRAW || rules.txn_type
            == TxType::LOAN_BROKER_COVER_WITHDRAW || rules.txn_type == TxType::LOAN_PAY)),
        spec_verdict(IssuanceRead::Found(issuance), holders, rules) == TransferVerdict::Clear
            || spec_verdict(IssuanceRead::Found(issuance), holders, rules)
            == TransferVerdict::Barred,
{
    good_holders_read(holders, issuance.require_auth);
}

/// An issuance that may not be traded bars just the transfers on the exchange: offers, new pools,
/// deposits into pools, and payments from one currency into another.
pub proof fn who_may_trade_the_untradable(
    issuance: MPTokenIssuance,
    holders: Seq<HolderTransfer>,
    rules: TransferRules,
    sender: int,
    receiver: int,
)
    requires
        !issuance.locked,
        issuance.can_transfer,
        !issuance.can_trade,
        0 <= sender < holders.len(),
        0 <= receiver < holders.len(),
        holders[sender].amount.sent(),
        holders[receiver].amount.received(),
        forall|i: int|
            0 <= i < holders.len() ==> (#[trigger] holders[i]).frozen == Ok::<bool, ViewError>(
                false,
            ) && !holders[i].amount.locked_before && !holders[i].amount.locked_after
                && holders[i].authorization == Ok::<Ter, ViewError>(Ter::TES_SUCCESS),
    ensures
        spec_verdict(IssuanceRead::Found(issuance), holders, rules) == TransferVerdict::Barred
            <==> rules.txn_type == TxType::OFFER_CREATE || rules.txn_type == TxType::AMM_CREATE
            || rules.txn_type == TxType::AMM_DEPOSIT || (rules.txn_type == TxType::PAYMENT
            && rules.cross_currency_payment),
{
    good_holders_read(holders, issuance.require_auth);
}

/// What cannot be read decides: of the issuance, or of a holder that takes part; a holder that does
/// not is not looked at.
pub proof fn failed_reads_decide(
    issuance: MPTokenIssuance,
    holder: HolderTransfer,
    rules: TransferRules,
    error: ViewError,
)
    ensures
        spec_verdict(IssuanceRead::Failed(error), seq![holder], rules) == TransferVerdict::ReadFailed(
            error,
        ),
        spec_verdict(IssuanceRead::Missing, seq![holder], rules) == TransferVerdict::Clear,
        (holder.amount.sent() || holder.amount.received()) && holder.frozen == Err::<bool, ViewError>(
            error,
        ) ==> spec_verdict(IssuanceRead::Found(issuance), seq![holder], rules)
            == TransferVerdict::ReadFailed(error),
        (holder.amount.sent() || holder.amount.received()) && holder.frozen is Ok
            && holder.authorization == Err::<Ter, ViewError>(error) && issuance.require_auth
            ==> spec_verdict(IssuanceRead::Found(issuance), seq![holder], rules)
            == TransferVerdict::ReadFailed(error),
        !holder.amount.sent() && !holder.amount.received() ==> spec_verdict(
            IssuanceRead::Found(issuance),
            seq![holder],
            rules,
        ) == TransferVerdict::Clear,
{
    reveal_with_fuel(first_read_error, 2);
    let one = seq![holder];
    assert(one.drop_first() =~= Seq::<HolderTransfer>::empty());
    assert(one[0] == holder);
    assert(one.len() == 1);
}

/// One issuance against which there is something is enough, whatever comes before or after it.
pub proof fn one_bad_issuance_is_enough(
    groups: Seq<IssuanceGroup>,
    rules: TransferRules,
    at: int,
)
    requires
        0 <= at < groups.len(),
        spec_verdict(groups[at].issuance, groups[at].holders, rules) != TransferVerdict::Clear,
    ensures
        first_verdict(groups, rules) != TransferVerdict::Clear,
    decreases groups.len(),
{
    if at > 0 {
        assert(groups.drop_first()[at - 1] == groups[at]);
        one_bad_issuance_is_enough(groups.drop_first(), rules, at - 1);
    }
}

/// Where there is nothing against any issuance there is nothing against the transfers.
pub proof fn good_issuances_are_clear(groups: Seq<IssuanceGroup>, rules: TransferRules)
    requires
        forall|i: int|
            0 <= i < groups.len() ==> spec_verdict(
                (#[trigger] groups[i]).issuance,
                groups[i].holders,
                rules,
            ) == TransferVerdict::Clear,
    ensures
        first_verdict(groups, rules) == TransferVerdict::Clear,
    decreases groups.len(),
{
    if groups.len() > 0 {
        assert(spec_verdict(groups[0].issuance, groups[0].holders, rules)
            == TransferVerdict::Clear);
        assert forall|i: int| 0 <= i < groups.drop_first().len() implies spec_verdict(
            (#[trigger] groups.drop_first()[i]).issuance,
            groups.drop_first()[i].holders,
            rules,
        ) == TransferVerdict::Clear by {
            assert(groups[i + 1] == groups.drop_first()[i]);
        }
        good_issuances_are_clear(groups.drop_first(), rules);
    }
}

/// Every recorded holder stands in the group of its issuance, with what was read of it.
pub proof fn every_holder_is_grouped(
    entries: Seq<(HolderKey, MptTransferAmount)>,
    reads: Seq<HolderReads>,
    n: int,
    i: int,
)
    requires
        0 <= i < n <= entries.len(),
        reads.len() == entries.len(),
    ensures
        exists|g: int, h: int|
            0 <= g < grouped(entries, reads, n).len() && 0 <= h < grouped(
                entries,
                reads,
                n,
            )[g].holders.len() && {
                let holder = #[trigger] grouped(entries, reads, n)[g].holders[h];
                holder.amount == entries[i].1 && holder.frozen == reads[i].frozen
                    && holder.authorization == reads[i].authorization
            },
    decreases n,
{
    let groups = grouped(entries, reads, n);
    let before = grouped(entries, reads, n - 1);
    grouping_starts(entries, reads, n);
    if n > 1 {
        grouping_starts(entries, reads, n - 1);
    }
    if i == n - 1 {
        let g = groups.len() - 1;
        let h = groups[g].holders.len() - 1;
        assert(groups[g].holders[h].amount == entries[i].1);
    } else {
        every_holder_is_grouped(entries, reads, n - 1, i);
        let (g, h) = choose|g: int, h: int|
            0 <= g < before.len() && 0 <= h < before[g].holders.len() && {
                let holder = #[trigger] before[g].holders[h];
                holder.amount == entries[i].1 && holder.frozen == reads[i].frozen
                    && holder.authorization == reads[i].authorization
            };
        assert(groups[g].holders[h] == before[g].holders[h]);
    }
}

proof fn grouping_starts(
    entries: Seq<(HolderKey, MptTransferAmount)>,
    reads: Seq<HolderReads>,
    n: int,
)
    requires
        0 < n <= entries.len(),
        reads.len() == entries.len(),
    ensures
        grouped(entries, reads, n).len() > 0,
        grouped(entries, reads, n).last().holders.len() > 0,
    decreases n,
{
    if n > 1 {
        grouping_starts(entries, reads, n - 1);
    }
}

/// Two holders that follow each other stand in one group where they are of one issuance, and the
/// second opens a group of its own where it is not.
pub proof fn groups_are_issuances(
    entries: Seq<(HolderKey, MptTransferAmount)>,
    reads: Seq<HolderReads>,
    n: int,
)
    requires
        1 < n <= entries.len(),
        reads.len() == entries.len(),
    ensures
        ({
            let before = grouped(entries, reads, n - 1);
            let after = grouped(entries, reads, n);
            &&& entries[n - 1].0.issuance == entries[n - 2].0.issuance ==> after.len()
                == before.len() && after.last().issuance == before.last().issuance
                && after.last().holders.len() == before.last().holders.len() + 1
            &&& entries[n - 1].0.issuance != entries[n - 2].0.issuance ==> after.len()
                == before.len() + 1 && after.last().issuance == reads[n - 1].issuance
                && after.last().holders.len() == 1
        }),
{
    grouping_starts(entries, reads, n - 1);
}

/// A change of an issuance stands where nothing is found against it and its sums go together: what
/// became confidential left the public amounts, or came out of what was issued.
pub proof fn confidential_changes_that_stand(
    change: ConfidentialMptChange,
    issuance: MPTokenIssuance,
    read: IssuanceRead,
    confidential_tx: bool,
)
    requires
        change.issuance == Some(issuance) || (change.issuance is None && read
            == IssuanceRead::Found(issuance)),
        !change.bad_consistency,
        !change.bad_coa,
        !change.bad_version,
        issuance.can_hold_confidential_balance,
        issuance.confidential_outstanding_amount == Some(0u64)
            || issuance.confidential_outstanding_amount is None || !change.deleted_with_encrypted,
    ensures
        change.coa_delta != 0 ==> (confidential_change_valid(change, read, confidential_tx)
            <==> change.outstanding_delta - change.mpt_amount_delta == change.coa_delta),
        change.coa_delta == 0 && confidential_tx ==> (confidential_change_valid(
            change,
            read,
            confidential_tx,
        ) <==> change.mpt_amount_delta == 0 && change.outstanding_delta == 0),
        change.coa_delta == 0 && !confidential_tx ==> confidential_change_valid(
            change,
            read,
            confidential_tx,
        ),
{
}

/// Each single fault keeps a change from standing; and a change whose issuance is gone stands, one
/// whose issuance cannot be read does not.
pub proof fn confidential_changes_that_do_not_stand(
    change: ConfidentialMptChange,
    issuance: MPTokenIssuance,
    read: IssuanceRead,
    confidential_tx: bool,
    error: ViewError,
)
    requires
        change.issuance == Some(issuance) || (change.issuance is None && read
            == IssuanceRead::Found(issuance)),
    ensures
        change.bad_consistency || change.bad_coa || change.bad_version
            ==> !confidential_change_valid(change, read, confidential_tx),
        change.changes_confidential_fields && !issuance.can_hold_confidential_balance
            ==> !confidential_change_valid(change, read, confidential_tx),
        change.deleted_with_encrypted && (issuance.confidential_outstanding_amount matches Some(coa)
            && coa > 0) ==> !confidential_change_valid(change, read, confidential_tx),
        ({
            let unnamed = ConfidentialMptChange { issuance: None, ..change };
            &&& confidential_change_valid(unnamed, IssuanceRead::Missing, confidential_tx)
            &&& !confidential_change_valid(unnamed, IssuanceRead::Failed(error), confidential_tx)
        }),
        !change.changes_confidential_fields && !change.deleted_with_encrypted
            && !change.bad_consistency && !change.bad_coa && !change.bad_version
            && change.coa_delta == 0 && !confidential_tx ==> confidential_change_valid(
            change,
            read,
            confidential_tx,
        ),
{
}

/// A holding moves the sum over the holdings by what it has more, and a holding that is deleted is
/// noticed where it still had anything, public or encrypted.
pub proof fn confidential_holdings_are_taken_down(
    changes: Map<MPTID, ConfidentialMptChange>,
    was: MPToken,
    is: MPToken,
)
    requires
        confidential_has_room(changes),
        was.issuance_id == is.issuance_id,
        was.amount <= 0x7FFF_FFFF_FFFF_FFFF,
        is.amount <= 0x7FFF_FFFF_FFFF_FFFF,
    ensures
        ({
            let id = was.issuance_id;
            let before = change_of(changes, id);
            let kept = change_of(
                recorded_confidential(
                    changes,
                    false,
                    Some(LedgerEntry::MPToken(was)),
                    LedgerEntry::MPToken(is),
                ),
                id,
            );
            let gone = change_of(
                recorded_confidential(
                    changes,
                    true,
                    Some(LedgerEntry::MPToken(was)),
                    LedgerEntry::Other,
                ),
                id,
            );
            &&& kept.mpt_amount_delta - before.mpt_amount_delta == is.amount - was.amount
            &&& kept.coa_delta == before.coa_delta
            &&& kept.outstanding_delta == before.outstanding_delta
            &&& gone.mpt_amount_delta == before.mpt_amount_delta - was.amount
            &&& kept.deleted_with_encrypted == before.deleted_with_encrypted
            &&& gone.deleted_with_encrypted <==> was.amount > 0 || was.confidential_balance_inbox is Some
                || was.confidential_balance_spending is Some || was.issuer_encrypted_balance is Some
                || was.auditor_encrypted_balance is Some
            &&& kept.bad_version <==> before.bad_version || (was.confidential_balance_spending is Some
                && was.spending() != is.spending() && was.confidential_balance_version
                == is.confidential_balance_version)
            &&& kept.bad_consistency <==> before.bad_consistency || (
            is.confidential_balance_inbox is Some) != (is.confidential_balance_spending is Some) || (
            is.confidential_balance_inbox is Some) != (is.issuer_encrypted_balance is Some) || (
            is.auditor_encrypted_balance is Some && is.issuer_encrypted_balance is None)
            &&& kept.changes_confidential_fields <==> before.changes_confidential_fields || (
            is.inbox() is Some && is.inbox() != was.inbox()) || (is.spending() is Some
                && is.spending() != was.spending()) || (is.issuer_balance() is Some
                && is.issuer_balance() != was.issuer_balance()) || (is.auditor_balance() is Some
                && is.auditor_balance() != was.auditor_balance())
        }),
{
}

/// An issuance moves its two sums by what more of it is outstanding, confidential and in all; more
/// of it confidential than outstanding is a fault.
pub proof fn confidential_issuances_are_taken_down(
    changes: Map<MPTID, ConfidentialMptChange>,
    was: MPTokenIssuance,
    is: MPTokenIssuance,
    was_coa: u64,
    is_coa: u64,
)
    requires
        confidential_has_room(changes),
        was.sequence == is.sequence,
        was.issuer == is.issuer,
        was.outstanding_amount <= 0x7FFF_FFFF_FFFF_FFFF,
        is.outstanding_amount <= 0x7FFF_FFFF_FFFF_FFFF,
        was_coa <= 0x7FFF_FFFF_FFFF_FFFF,
        is_coa <= 0x7FFF_FFFF_FFFF_FFFF,
        was.confidential_outstanding_amount == Some(was_coa) || (
        was.confidential_outstanding_amount is None && was_coa == 0),
        is.confidential_outstanding_amount == Some(is_coa) || (
        is.confidential_outstanding_amount is None && is_coa == 0),
    ensures
        ({
            let id = MPTID { sequence: was.sequence, issuer: was.issuer };
            let before = change_of(changes, id);
            let after = change_of(
                recorded_confidential(
                    changes,
                    false,
                    Some(LedgerEntry::MPTokenIssuance(was)),
                    LedgerEntry::MPTokenIssuance(is),
                ),
                id,
            );
            &&& after.coa_delta - before.coa_delta == is_coa - was_coa
            &&& after.outstanding_delta - before.outstanding_delta == is.outstanding_amount
                - was.outstanding_amount
            &&& after.mpt_amount_delta == before.mpt_amount_delta
            &&& after.issuance == Some(is)
            &&& after.bad_coa <==> before.bad_coa || is_coa > is.outstanding_amount
        }),
{
}

/// Turning public tokens into confidential ones stands just where as much becomes confidential as
/// leaves the holding, with what is outstanding unchanged.
pub proof fn converting_keeps_the_sum(
    held: MPToken,
    holds: MPToken,
    was: MPTokenIssuance,
    is: MPTokenIssuance,
    was_coa: u64,
    is_coa: u64,
)
    requires
        held.issuance_id == holds.issuance_id,
        held.issuance_id.sequence == was.sequence,
        held.issuance_id.issuer == was.issuer,
        was.sequence == is.sequence,
        was.issuer == is.issuer,
        held.amount <= 0x7FFF_FFFF_FFFF_FFFF,
        holds.amount <= 0x7FFF_FFFF_FFFF_FFFF,
        was.outstanding_amount == is.outstanding_amount,
        is.outstanding_amount <= 0x7FFF_FFFF_FFFF_FFFF,
        was.confidential_outstanding_amount == Some(was_coa),
        is.confidential_outstanding_amount == Some(is_coa),
        was_coa <= is.outstanding_amount,
        is_coa <= is.outstanding_amount,
        was_coa != is_coa,
        is.can_hold_confidential_balance,
        holds.confidential_balance_inbox is Some,
        holds.confidential_balance_spending is Some,
        holds.issuer_encrypted_balance is Some,
        held.confidential_balance_version != holds.confidential_balance_version,
    ensures
        ({
            let one = recorded_confidential(
                Map::empty(),
                false,
                Some(LedgerEntry::MPToken(held)),
                LedgerEntry::MPToken(holds),
            );
            let two = recorded_confidential(
                one,
                false,
                Some(LedgerEntry::MPTokenIssuance(was)),
                LedgerEntry::MPTokenIssuance(is),
            );
            let change = change_of(two, held.issuance_id);
            confidential_change_valid(change, IssuanceRead::Missing, true) <==> is_coa - was_coa
                == held.amount - holds.amount
        }),
{
    let empty = Map::<MPTID, ConfidentialMptChange>::empty();
    let id = held.issuance_id;
    assert(was.spec_id() == id);
    confidential_holdings_are_taken_down(empty, held, holds);
    let one = recorded_confidential(
        empty,
        false,
        Some(LedgerEntry::MPToken(held)),
        LedgerEntry::MPToken(holds),
    );
    assert(forall|k: MPTID| #[trigger] one.contains_key(k) ==> k == id);
    assert(change_of(empty, id).mpt_amount_delta == 0);
    confidential_issuances_are_taken_down(one, was, is, was_coa, is_coa);
}

/// A pseudo account of a vault is one whose root names a vault; none that is not there is one, and
/// what could not be read is told.
pub proof fn vault_accounts_name_their_vault(
    root: Result<Option<bool>, ViewError>,
    r: Result<bool, ViewError>,
)
    requires
        call_ensures(is_vault_pseudo_account, (root,), r),
    ensures
        r == Ok::<bool, ViewError>(true) <==> root == Ok::<Option<bool>, ViewError>(Some(true)),
        root is Err <==> r is Err,
        root matches Err(error) ==> r == Err::<bool, ViewError>(error),
{
}

/// Any one of what must not happen to the holding of a vault is enough to refuse a transaction, and
/// nothing else is.
pub proof fn vault_holdings_are_left_alone(lifecycle: MptIssuanceLifecycle, r: bool)
    requires
        call_ensures(validates_mpt_issuance_lifecycle, (&lifecycle,), r),
    ensures
        lifecycle.reference_holding_set_on_create ==> !r,
        lifecycle.reference_holding_mutated ==> !r,
        lifecycle.vault_holding_deleted ==> !r,
        !r ==> lifecycle.reference_holding_set_on_create || lifecycle.reference_holding_mutated
            || lifecycle.vault_holding_deleted,
{
}

/// Two issuances have the same identifier only where the same issuer made both with the same
/// sequence.
pub proof fn identifiers_tell_issuances_apart(
    sequence: u32,
    issuer: AccountID,
    other_sequence: u32,
    other_issuer: AccountID,
    id: MPTID,
    other: MPTID,
)
    requires
        call_ensures(make_mpt_id, (sequence, issuer), id),
        call_ensures(make_mpt_id, (other_sequence, other_issuer), other),
    ensures
        id.issuer == issuer,
        id.sequence == sequence,
        id == other <==> sequence == other_sequence && issuer == other_issuer,
{
}

/// An issuance has its own maximum where it states one, and otherwise the largest amount of
/// sixty-three bits; no amount counts for more than that.
pub proof fn how_much_there_may_be(
    issuance: MPTokenIssuance,
    most: u64,
    general: u64,
    value: u64,
    capped: i128,
)
    requires
        call_ensures(mpt_max_amount, (&issuance,), most),
        call_ensures(max_mpt_token_amount, (), general),
        call_ensures(capped_delta, (value,), capped),
    ensures
        general == 0x7fff_ffff_ffff_ffff,
        issuance.maximum_amount is None ==> most == general,
        issuance.maximum_amount matches Some(amount) ==> most == amount,
        capped <= value && capped <= general,
        capped == value || capped == general,
{
}

/// Two fields are the same where neither is there, or both are and hold the same.
pub proof fn what_is_the_same(
    a: Option<Vec<u8>>,
    b: Option<Vec<u8>>,
    bytes: bool,
    before: Option<Uint256>,
    after: Option<Uint256>,
    hashes: bool,
)
    requires
        call_ensures(same_optional_bytes, (&a, &b), bytes),
        call_ensures(same_optional_h256, (before, after), hashes),
    ensures
        a is None && b is None ==> bytes,
        (a is Some) != (b is Some) ==> !bytes,
        a matches Some(x) ==> (b matches Some(y) ==> (bytes <==> x@ == y@)),
        hashes ==> (before is Some <==> after is Some),
        before is None && after is None ==> hashes,
        before matches Some(x) ==> (after matches Some(y) ==> (hashes <==> x == y)),
{
}

/// Holdings are told apart by their issuance and their account; one that was not seen yet has
/// nothing before and nothing after.
pub proof fn holders_are_told_apart(
    token: MPToken,
    other: MPToken,
    seen: Map<HolderKey, MptTransferAmount>,
)
    ensures
        holder_key(token) == holder_key(other) <==> token.issuance_id == other.issuance_id
            && token.account == other.account,
        holder_key(token).account == token.account,
        holder_key(token).issuance == token.issuance_id,
        ({
            let found = transfer_of(seen, holder_key(token));
            &&& seen.contains_key(holder_key(token)) ==> found == seen[holder_key(token)]
            &&& !seen.contains_key(holder_key(token)) ==> found.before is None && found.after is None
                && !found.authorized_before && !found.authorized_after && !found.locked_before
                && !found.locked_after
        }),
{
}

/// A holding is noted under its holder, before or after, and no other holder's is touched; an entry
/// that is no holding is not noted.
pub proof fn holdings_are_noted(
    transfers: &mut OrdMap<HolderKey, MptTransferAmount>,
    entry: LedgerEntry,
    before: bool,
    other: HolderKey,
)
    requires
        call_ensures(record_mpt_transfer, (transfers, &entry, before), ()),
    ensures
        !(entry is MPToken) ==> final(transfers)@ == old(transfers)@,
        entry matches LedgerEntry::MPToken(token) ==> {
            let key = (HolderKey { issuance: token.issuance_id, account: token.account });
            &&& final(transfers)@.contains_key(key)
            &&& before ==> final(transfers)@[key].before is Some
            &&& !before ==> final(transfers)@[key].after is Some
            &&& other != key ==> (final(transfers)@.contains_key(other) <==> old(transfers)@.contains_key(other)) && (old(transfers)@.contains_key(other) ==> final(transfers)@[other] == old(transfers)@[other])
        },
{
}

/// That a holding of a vault was deleted is never forgotten, is noted where a deletion was looked
/// into and was one, and stops the transaction where it could not be looked into.
pub proof fn deleted_vault_holdings_are_noted(
    reads: VaultAccountReads,
    t: TxType,
    lifecycle: &mut MptIssuanceLifecycle,
    is_delete: bool,
    before: Option<LedgerEntry>,
    after: Option<LedgerEntry>,
    deleted: LedgerEntry,
    r: Result<(), ViewError>,
)
    requires
        call_ensures(
            record_mpt_issuance_lifecycle,
            (reads, t, lifecycle, is_delete, &before, &after, &deleted),
            r,
        ),
    ensures
        !is_delete || t == TxType::VAULT_DELETE ==> r is Ok,
        is_delete && t != TxType::VAULT_DELETE ==> {
            let vault = deleted_vault_holding(deleted, reads);
            &&& r is Err <==> vault is Err
            &&& vault matches Err(error) ==> r == Err::<(), ViewError>(error)
            &&& vault == Ok::<bool, ViewError>(true) ==> final(lifecycle).vault_holding_deleted
        },
{
}

} // verus!
