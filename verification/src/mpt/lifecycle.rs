//! Which transactions may create and delete token issuances and holdings.
use vstd::prelude::*;
use crate::ids::ViewError;
use crate::mpt::entry::{LedgerEntry, same_optional_h256};
use crate::ter::{Ter, is_tes_success};
use crate::tx_type::TxType;

verus! {

/// What a transaction did to issuances and holdings.
#[derive(Clone, Copy, Debug, PartialEq, Eq, Structural)]
pub struct MptIssuanceLifecycle {
    pub reference_holding_set_on_create: bool,
    pub reference_holding_mutated: bool,
    pub vault_holding_deleted: bool,
    pub issuances_created: u32,
    pub issuances_deleted: u32,
    pub tokens_created: u32,
    pub tokens_deleted: u32,
    pub token_created_by_issuer: bool,
}

impl MptIssuanceLifecycle {
    pub open spec fn spec_new() -> MptIssuanceLifecycle {
        MptIssuanceLifecycle {
            reference_holding_set_on_create: false,
            reference_holding_mutated: false,
            vault_holding_deleted: false,
            issuances_created: 0,
            issuances_deleted: 0,
            tokens_created: 0,
            tokens_deleted: 0,
            token_created_by_issuer: false,
        }
    }

    /// Nothing recorded yet.
    pub fn new() -> (r: MptIssuanceLifecycle)
        ensures
            r == MptIssuanceLifecycle::spec_new(),
    {
        MptIssuanceLifecycle {
            reference_holding_set_on_create: false,
            reference_holding_mutated: false,
            vault_holding_deleted: false,
            issuances_created: 0,
            issuances_deleted: 0,
            tokens_created: 0,
            tokens_deleted: 0,
            token_created_by_issuer: false,
        }
    }

    /// No issuance came or went.
    pub open spec fn keeps_issuances(self) -> bool {
        self.issuances_created == 0 && self.issuances_deleted == 0
    }

    /// No holding came or went.
    pub open spec fn keeps_tokens(self) -> bool {
        self.tokens_created == 0 && self.tokens_deleted == 0
    }
}

/// One more, as far as the counter goes.
pub open spec fn one_more(count: u32) -> u32 {
    if count == u32::MAX {
        count
    } else {
        (count + 1) as u32
    }
}

pub open spec fn is_issuance(entry: Option<LedgerEntry>) -> bool {
    entry matches Some(LedgerEntry::MPTokenIssuance(_))
}

pub open spec fn is_token(entry: Option<LedgerEntry>) -> bool {
    entry matches Some(LedgerEntry::MPToken(_))
}

/// The reference to a vault holding that an issuance carries.
pub open spec fn reference_holding_of(entry: Option<LedgerEntry>) -> Option<crate::ids::Uint256> {
    match entry {
        Some(LedgerEntry::MPTokenIssuance(issuance)) => issuance.reference_holding,
        _ => None,
    }
}

/// What reads of the accounts behind a deleted holding bring: whether each is the pseudo
/// account of a vault. A holding has one account; a trust line has a low and a high one.
#[derive(Clone, Copy, Debug)]
pub struct VaultAccountReads {
    pub first: Result<bool, ViewError>,
    pub second: Result<bool, ViewError>,
}

/// Whether the deleted entry was a holding of a vault.
pub open spec fn deleted_vault_holding(
    deleted: LedgerEntry,
    reads: VaultAccountReads,
) -> Result<bool, ViewError> {
    match deleted {
        LedgerEntry::MPToken(_) => reads.first,
        LedgerEntry::RippleState { .. } => match reads.first {
            Ok(false) => reads.second,
            other => other,
        },
        _ => Ok(false),
    }
}

/// The counts after one changed entry.
pub open spec fn counted(
    lifecycle: MptIssuanceLifecycle,
    txn_type: TxType,
    is_delete: bool,
    before: Option<LedgerEntry>,
    after: Option<LedgerEntry>,
    deleted: LedgerEntry,
) -> MptIssuanceLifecycle {
    let created_issuance = is_issuance(after) && before is None;
    let created_token = is_token(after) && before is None;
    MptIssuanceLifecycle {
        issuances_created: if created_issuance {
            one_more(lifecycle.issuances_created)
        } else {
            lifecycle.issuances_created
        },
        reference_holding_set_on_create: lifecycle.reference_holding_set_on_create || (
        created_issuance && reference_holding_of(after) is Some && txn_type != TxType::VAULT_CREATE),
        reference_holding_mutated: lifecycle.reference_holding_mutated || (is_issuance(after)
            && before is Some && reference_holding_of(before) != reference_holding_of(after)),
        issuances_deleted: if is_delete && deleted is MPTokenIssuance {
            one_more(lifecycle.issuances_deleted)
        } else {
            lifecycle.issuances_deleted
        },
        tokens_created: if created_token {
            one_more(lifecycle.tokens_created)
        } else {
            lifecycle.tokens_created
        },
        token_created_by_issuer: lifecycle.token_created_by_issuer || (before is None && (after matches Some(
            LedgerEntry::MPToken(token),
        ) && token.issuance_id.issuer == token.account)),
        tokens_deleted: if is_delete && deleted is MPToken {
            one_more(lifecycle.tokens_deleted)
        } else {
            lifecycle.tokens_deleted
        },
        vault_holding_deleted: lifecycle.vault_holding_deleted,
    }
}

/// Only a deletion outside of a vault deletion asks whose holding was deleted.
pub open spec fn asks_for_vault(txn_type: TxType, is_delete: bool) -> bool {
    is_delete && txn_type != TxType::VAULT_DELETE
}

/// Records one changed entry. `deleted` is the entry as it was when it went, where it went.
/// Where a read that the record needs has failed, its error is returned, after the counts have
/// been taken.
pub fn record_mpt_issuance_lifecycle(
    reads: VaultAccountReads,
    txn_type: TxType,
    lifecycle: &mut MptIssuanceLifecycle,
    is_delete: bool,
    before: &Option<LedgerEntry>,
    after: &Option<LedgerEntry>,
    deleted: &LedgerEntry,
) -> (r: Result<(), ViewError>)
    ensures
        ({
            let taken = counted(*old(lifecycle), txn_type, is_delete, *before, *after, *deleted);
            if !asks_for_vault(txn_type, is_delete) {
                r == Ok::<(), ViewError>(()) && *final(lifecycle) == taken
            } else {
                match deleted_vault_holding(*deleted, reads) {
                    Ok(vault) => r == Ok::<(), ViewError>(()) && *final(lifecycle) == (
                    MptIssuanceLifecycle {
                        vault_holding_deleted: taken.vault_holding_deleted || vault,
                        ..taken
                    }),
                    Err(error) => r == Err::<(), ViewError>(error) && *final(lifecycle) == taken,
                }
            }
        }),
{
    if let Some(LedgerEntry::MPTokenIssuance(issuance)) = after {
        match before {
            None => {
                lifecycle.issuances_created = lifecycle.issuances_created.saturating_add(1);
                if issuance.reference_holding.is_some() && txn_type != TxType::VAULT_CREATE {
                    lifecycle.reference_holding_set_on_create = true;
                }
            },
            Some(LedgerEntry::MPTokenIssuance(was)) => {
                if !same_optional_h256(was.reference_holding, issuance.reference_holding) {
                    lifecycle.reference_holding_mutated = true;
                }
            },
            Some(_) => {
                if issuance.reference_holding.is_some() {
                    lifecycle.reference_holding_mutated = true;
                }
            },
        }
    }
    if is_delete {
        if let LedgerEntry::MPTokenIssuance(_) = deleted {
            lifecycle.issuances_deleted = lifecycle.issuances_deleted.saturating_add(1);
        }
    }
    if let Some(LedgerEntry::MPToken(token)) = after {
        if before.is_none() {
            lifecycle.tokens_created = lifecycle.tokens_created.saturating_add(1);
            if token.issuance_id.issuer == token.account {
                lifecycle.token_created_by_issuer = true;
            }
        }
    }
    if is_delete {
        if let LedgerEntry::MPToken(_) = deleted {
            lifecycle.tokens_deleted = lifecycle.tokens_deleted.saturating_add(1);
        }
    }
    proof {
        assert(*lifecycle == counted(*old(lifecycle), txn_type, is_delete, *before, *after, *deleted));
    }
    if !is_delete || txn_type == TxType::VAULT_DELETE {
        return Ok(());
    }
    let vault = match deleted {
        LedgerEntry::MPToken(_) => match reads.first {
            Ok(vault) => vault,
            Err(error) => {
                return Err(error);
            },
        },
        LedgerEntry::RippleState { .. } => match reads.first {
            Ok(true) => true,
            Ok(false) => match reads.second {
                Ok(vault) => vault,
                Err(error) => {
                    return Err(error);
                },
            },
            Err(error) => {
                return Err(error);
            },
        },
        _ => false,
    };
    if vault {
        lifecycle.vault_holding_deleted = true;
    }
    Ok(())
}

/// Whether an account root that was read is the pseudo account of a vault: it names one.
pub fn is_vault_pseudo_account(account_root: Result<Option<bool>, ViewError>) -> (r: Result<bool, ViewError>)
    ensures
        r == (match account_root {
            Ok(Some(names_vault)) => Ok::<bool, ViewError>(names_vault),
            Ok(None) => Ok(false),
            Err(error) => Err(error),
        }),
{
    match account_root {
        Ok(Some(names_vault)) => Ok(names_vault),
        Ok(None) => Ok(false),
        Err(error) => Err(error),
    }
}

/// No reference to a vault holding was set or changed where it may not be, and no holding of a
/// vault was deleted.
pub fn validates_mpt_issuance_lifecycle(lifecycle: &MptIssuanceLifecycle) -> (r: bool)
    ensures
        r == !(lifecycle.reference_holding_set_on_create || lifecycle.reference_holding_mutated
            || lifecycle.vault_holding_deleted),
{
    !lifecycle.reference_holding_set_on_create && !lifecycle.reference_holding_mutated
        && !lifecycle.vault_holding_deleted
}

pub open spec fn may_create_issuance(t: TxType) -> bool {
    t is MPTOKEN_ISSUANCE_CREATE || t is VAULT_CREATE
}

pub open spec fn may_destroy_issuance(t: TxType) -> bool {
    t is MPTOKEN_ISSUANCE_DESTROY || t is VAULT_DELETE
}

pub open spec fn must_authorize(t: TxType) -> bool {
    t is MPTOKEN_AUTHORIZE
}

pub open spec fn may_authorize(t: TxType) -> bool {
    ||| t is AMM_CLAWBACK
    ||| t is AMM_WITHDRAW
    ||| t is VAULT_DEPOSIT
    ||| t is VAULT_WITHDRAW
    ||| t is LOAN_BROKER_SET
    ||| t is LOAN_BROKER_DELETE
    ||| t is LOAN_BROKER_COVER_WITHDRAW
    ||| t is LOAN_SET
    ||| t is LOAN_PAY
}

pub open spec fn may_create_token(t: TxType) -> bool {
    t is PAYMENT || t is OFFER_CREATE || t is CHECK_CASH || t is AMM_CREATE
}

pub open spec fn may_delete_token(t: TxType) -> bool {
    t is AMM_DELETE || t is VAULT_WITHDRAW || t is VAULT_CLAWBACK
}

/// The transaction type creates exactly one issuance.
pub fn has_create_mpt_issuance_privilege(txn_type: TxType) -> (r: bool)
    ensures
        r == may_create_issuance(txn_type),
{
    matches!(txn_type, TxType::MPTOKEN_ISSUANCE_CREATE | TxType::VAULT_CREATE)
}

/// The transaction type deletes exactly one issuance.
pub fn has_destroy_mpt_issuance_privilege(txn_type: TxType) -> (r: bool)
    ensures
        r == may_destroy_issuance(txn_type),
{
    matches!(txn_type, TxType::MPTOKEN_ISSUANCE_DESTROY | TxType::VAULT_DELETE)
}

/// The transaction type is for creating or deleting a holding.
pub fn has_must_authorize_mpt_privilege(txn_type: TxType) -> (r: bool)
    ensures
        r == must_authorize(txn_type),
{
    txn_type == TxType::MPTOKEN_AUTHORIZE
}

/// The transaction type may create or delete a holding on the way.
pub fn has_may_authorize_mpt_privilege(txn_type: TxType) -> (r: bool)
    ensures
        r == may_authorize(txn_type),
{
    matches!(
        txn_type,
        TxType::AMM_CLAWBACK | TxType::AMM_WITHDRAW | TxType::VAULT_DEPOSIT | TxType::VAULT_WITHDRAW
            | TxType::LOAN_BROKER_SET | TxType::LOAN_BROKER_DELETE
            | TxType::LOAN_BROKER_COVER_WITHDRAW | TxType::LOAN_SET | TxType::LOAN_PAY
    )
}

/// The transaction type may create holdings.
pub fn has_may_create_mpt_privilege(txn_type: TxType) -> (r: bool)
    ensures
        r == may_create_token(txn_type),
{
    matches!(
        txn_type,
        TxType::PAYMENT | TxType::OFFER_CREATE | TxType::CHECK_CASH | TxType::AMM_CREATE
    )
}

/// The transaction type may delete holdings.
pub fn has_may_delete_mpt_privilege(txn_type: TxType) -> (r: bool)
    ensures
        r == may_delete_token(txn_type),
{
    matches!(txn_type, TxType::AMM_DELETE | TxType::VAULT_WITHDRAW | TxType::VAULT_CLAWBACK)
}

/// Which amendments that bear on token lifecycles are enabled.
#[derive(Clone, Copy, Debug, PartialEq, Eq, Structural)]
pub struct LifecycleRules {
    pub single_asset_vault_enabled: bool,
    pub lending_protocol_enabled: bool,
    pub mptokens_v2_enabled: bool,
}

impl LifecycleRules {
    pub open spec fn vault_or_lending(self) -> bool {
        self.single_asset_vault_enabled || self.lending_protocol_enabled
    }
}

/// The counts are looked at: after a success, and after an incomplete one under the second
/// version of the token rules.
pub open spec fn counts_apply(result: Ter, rules: LifecycleRules) -> bool {
    result.success() || (rules.mptokens_v2_enabled && result == Ter::TEC_INCOMPLETE)
}

/// The transaction is held to the rules for authorizing holders.
pub open spec fn under_authorize_rules(t: TxType, rules: LifecycleRules) -> bool {
    must_authorize(t) || may_authorize(t) || (t is ESCROW_FINISH && rules.vault_or_lending())
}

/// What a transaction under the authorizing rules may do to holdings.
pub open spec fn authorize_counts_valid(
    t: TxType,
    tx_has_holder: bool,
    rules: LifecycleRules,
    l: MptIssuanceLifecycle,
) -> bool {
    &&& l.keeps_issuances()
    &&& if rules.mptokens_v2_enabled && (t is AMM_WITHDRAW || t is AMM_CLAWBACK) {
        &&& tx_has_holder && t is AMM_WITHDRAW ==> l.tokens_created == 0
        &&& l.tokens_created <= 1
        &&& l.tokens_deleted <= 2
    } else {
        &&& rules.lending_protocol_enabled ==> l.tokens_created + l.tokens_deleted <= 1
        &&& tx_has_holder ==> l.keeps_tokens()
        &&& !tx_has_holder && must_authorize(t) ==> l.tokens_created + l.tokens_deleted == 1
    }
}

/// What a transaction that may create holdings may do to them.
pub open spec fn create_counts_valid(t: TxType, tx_has_holder: bool, l: MptIssuanceLifecycle) -> bool {
    &&& l.keeps_issuances()
    &&& l.tokens_deleted == 0
    &&& !tx_has_holder
    &&& t is AMM_CREATE ==> l.tokens_created <= 2
    &&& t is CHECK_CASH ==> l.tokens_created <= 1
}

/// What a transaction that may delete holdings may do to them.
pub open spec fn delete_counts_valid(t: TxType, l: MptIssuanceLifecycle) -> bool {
    &&& may_delete_token(t)
    &&& l.keeps_issuances()
    &&& l.tokens_created == 0
    &&& (t is AMM_DELETE && l.tokens_deleted <= 2) || l.tokens_deleted == 1
}

/// The transaction may leave these counts behind.
pub open spec fn lifecycle_counts_valid(
    t: TxType,
    result: Ter,
    tx_has_holder: bool,
    rules: LifecycleRules,
    l: MptIssuanceLifecycle,
) -> bool {
    counts_apply(result, rules) ==> {
        &&& !(l.token_created_by_issuer && rules.vault_or_lending())
        &&& if may_create_issuance(t) {
            l.issuances_created == 1 && l.issuances_deleted == 0
        } else if may_destroy_issuance(t) {
            l.issuances_created == 0 && l.issuances_deleted == 1
        } else if under_authorize_rules(t, rules) {
            authorize_counts_valid(t, tx_has_holder, rules, l)
        } else if may_create_token(t) {
            create_counts_valid(t, tx_has_holder, l)
        } else {
            t is ESCROW_FINISH || delete_counts_valid(t, l) || (l.keeps_issuances()
                && l.keeps_tokens())
        }
    }
}

/// Whether the transaction may leave these counts behind.
pub fn validates_mpt_lifecycle_counts(
    txn_type: TxType,
    result: Ter,
    tx_has_holder: bool,
    rules: LifecycleRules,
    lifecycle: &MptIssuanceLifecycle,
) -> (r: bool)
    ensures
        r == lifecycle_counts_valid(txn_type, result, tx_has_holder, rules, *lifecycle),
{
    let vault_or_lending = rules.single_asset_vault_enabled || rules.lending_protocol_enabled;
    let applies = is_tes_success(result) || (rules.mptokens_v2_enabled && result
        == Ter::TEC_INCOMPLETE);
    if !applies {
        return true;
    }
    if lifecycle.token_created_by_issuer && vault_or_lending {
        return false;
    }
    if has_create_mpt_issuance_privilege(txn_type) {
        return lifecycle.issuances_created == 1 && lifecycle.issuances_deleted == 0;
    }
    if has_destroy_mpt_issuance_privilege(txn_type) {
        return lifecycle.issuances_created == 0 && lifecycle.issuances_deleted == 1;
    }
    let enforce_escrow_finish = txn_type == TxType::ESCROW_FINISH && vault_or_lending;
    if has_must_authorize_mpt_privilege(txn_type) || has_may_authorize_mpt_privilege(txn_type)
        || enforce_escrow_finish {
        if lifecycle.issuances_created > 0 || lifecycle.issuances_deleted > 0 {
            return false;
        }
        if rules.mptokens_v2_enabled && has_may_authorize_mpt_privilege(txn_type) && matches!(
            txn_type,
            TxType::AMM_WITHDRAW | TxType::AMM_CLAWBACK
        ) {
            if tx_has_holder && txn_type == TxType::AMM_WITHDRAW && lifecycle.tokens_created > 0 {
                return false;
            }
            return lifecycle.tokens_created <= 1 && lifecycle.tokens_deleted <= 2;
        }
        let touched: u64 = lifecycle.tokens_created as u64 + lifecycle.tokens_deleted as u64;
        if rules.lending_protocol_enabled && touched > 1 {
            return false;
        }
        if tx_has_holder && (lifecycle.tokens_created > 0 || lifecycle.tokens_deleted > 0) {
            return false;
        }
        if !tx_has_holder && has_must_authorize_mpt_privilege(txn_type) && touched != 1 {
            return false;
        }
        return true;
    }
    if has_may_create_mpt_privilege(txn_type) {
        if lifecycle.issuances_created > 0 || lifecycle.issuances_deleted > 0
            || lifecycle.tokens_deleted > 0 || tx_has_holder {
            return false;
        }
        if (txn_type == TxType::AMM_CREATE && lifecycle.tokens_created > 2) || (txn_type
            == TxType::CHECK_CASH && lifecycle.tokens_created > 1) {
            return false;
        }
        return true;
    }
    // An escrow may create the holding of its destination on being finished.
    if txn_type == TxType::ESCROW_FINISH {
        return true;
    }
    if has_may_delete_mpt_privilege(txn_type) && lifecycle.tokens_created == 0
        && lifecycle.issuances_created == 0 && lifecycle.issuances_deleted == 0 && ((txn_type
        == TxType::AMM_DELETE && lifecycle.tokens_deleted <= 2) || lifecycle.tokens_deleted == 1) {
        return true;
    }
    lifecycle.issuances_created == 0 && lifecycle.issuances_deleted == 0
        && lifecycle.tokens_created == 0 && lifecycle.tokens_deleted == 0
}

/// An issuance comes into being only through a transaction type made for it, and goes only
/// through one made for that. An escrow that is finished outside of the authorizing rules is
/// not held to this.
pub proof fn issuances_need_privilege(
    t: TxType,
    result: Ter,
    tx_has_holder: bool,
    rules: LifecycleRules,
    l: MptIssuanceLifecycle,
)
    requires
        counts_apply(result, rules),
        lifecycle_counts_valid(t, result, tx_has_holder, rules, l),
        !(t is ESCROW_FINISH) || rules.vault_or_lending(),
    ensures
        l.issuances_created > 0 ==> may_create_issuance(t) && l.issuances_created == 1,
        l.issuances_deleted > 0 ==> may_destroy_issuance(t) && l.issuances_deleted == 1,
{
}

/// A transaction type without any token privilege leaves every issuance and holding in place.
pub proof fn unprivileged_types_touch_nothing(
    t: TxType,
    result: Ter,
    tx_has_holder: bool,
    rules: LifecycleRules,
    l: MptIssuanceLifecycle,
)
    requires
        counts_apply(result, rules),
        lifecycle_counts_valid(t, result, tx_has_holder, rules, l),
        !may_create_issuance(t),
        !may_destroy_issuance(t),
        !under_authorize_rules(t, rules),
        !may_create_token(t),
        !may_delete_token(t),
        !(t is ESCROW_FINISH),
    ensures
        l.keeps_issuances(),
        l.keeps_tokens(),
{
}

/// A fault found in one entry stays found, and no count ever falls.
pub proof fn counts_only_grow(
    l: MptIssuanceLifecycle,
    txn_type: TxType,
    is_delete: bool,
    before: Option<LedgerEntry>,
    after: Option<LedgerEntry>,
    deleted: LedgerEntry,
)
    ensures
        ({
            let next = counted(l, txn_type, is_delete, before, after, deleted);
            &&& l.issuances_created <= next.issuances_created
            &&& l.issuances_deleted <= next.issuances_deleted
            &&& l.tokens_created <= next.tokens_created
            &&& l.tokens_deleted <= next.tokens_deleted
            &&& l.reference_holding_set_on_create ==> next.reference_holding_set_on_create
            &&& l.reference_holding_mutated ==> next.reference_holding_mutated
            &&& l.token_created_by_issuer ==> next.token_created_by_issuer
        }),
{
}

} // verus!
