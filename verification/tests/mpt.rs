use xrpld_app::ids::{make_mpt_id, AccountID, Uint256, ViewError, MPTID};
use xrpld_app::mpt::accounting::{
    record_mpt_accounting, validates_mpt_accounting, validates_mpt_accounting_for_transaction,
    MptAccounting,
};
use xrpld_app::mpt::confidential::{
    capped_delta, record_confidential_mpt, validates_confidential_mpt, ConfidentialMptChange,
};
use xrpld_app::mpt::entry::{
    max_mpt_token_amount, mpt_id_from_issuance, mpt_max_amount, same_optional_bytes,
    same_optional_h256, IssuanceRead, LedgerEntry, MPToken, MPTokenIssuance,
};
use xrpld_app::mpt::lifecycle::{
    has_create_mpt_issuance_privilege, has_destroy_mpt_issuance_privilege,
    has_may_authorize_mpt_privilege, has_may_create_mpt_privilege, has_may_delete_mpt_privilege,
    has_must_authorize_mpt_privilege, is_vault_pseudo_account, record_mpt_issuance_lifecycle,
    validates_mpt_issuance_lifecycle, validates_mpt_lifecycle_counts, LifecycleRules,
    MptIssuanceLifecycle, VaultAccountReads,
};
use xrpld_app::mpt::transfer::{
    group_transfers, mpt_transfer_is_dex, mpt_transfer_waives_can_transfer, record_mpt_transfer,
    validates_mpt_transfers, HolderKey, HolderReads, MptTransferAmount, TransferRules,
};
use xrpld_app::ord_map::OrdMap;
use xrpld_app::ter::Ter;
use xrpld_app::tx_type::TxType;

fn account(lo: u128) -> AccountID {
    AccountID { hi: 0, lo }
}

fn mpt() -> MPTID {
    make_mpt_id(7, account(1))
}

fn issuance(outstanding: u64) -> MPTokenIssuance {
    MPTokenIssuance {
        sequence: 7,
        issuer: account(1),
        outstanding_amount: outstanding,
        maximum_amount: None,
        confidential_outstanding_amount: None,
        reference_holding: None,
        locked: false,
        can_transfer: true,
        can_trade: true,
        require_auth: false,
        can_hold_confidential_balance: true,
    }
}

fn token(holder: u128, amount: u64) -> MPToken {
    MPToken {
        account: account(holder),
        issuance_id: mpt(),
        amount,
        locked_amount: 0,
        authorized: true,
        locked: false,
        confidential_balance_inbox: None,
        confidential_balance_spending: None,
        issuer_encrypted_balance: None,
        auditor_encrypted_balance: None,
        confidential_balance_version: None,
    }
}

fn encrypted(amount: u64, spending: u8, version: u32) -> MPToken {
    MPToken {
        confidential_balance_inbox: Some(vec![1]),
        confidential_balance_spending: Some(vec![spending]),
        issuer_encrypted_balance: Some(vec![2]),
        confidential_balance_version: Some(version),
        ..token(2, amount)
    }
}

fn issued(outstanding: u64) -> LedgerEntry {
    LedgerEntry::MPTokenIssuance(issuance(outstanding))
}

fn held(holder: u128, amount: u64) -> LedgerEntry {
    LedgerEntry::MPToken(token(holder, amount))
}

#[test]
fn entries_are_compared_and_named() {
    assert_eq!(mpt_id_from_issuance(&issuance(1)), mpt());
    assert_eq!(max_mpt_token_amount(), i64::MAX as u64);
    assert_eq!(mpt_max_amount(&issuance(1)), i64::MAX as u64);
    let limited = MPTokenIssuance { maximum_amount: Some(40), ..issuance(1) };
    assert_eq!(mpt_max_amount(&limited), 40);
    assert!(same_optional_bytes(&Some(vec![1, 2]), &Some(vec![1, 2])));
    assert!(!same_optional_bytes(&Some(vec![1, 2]), &Some(vec![1, 3])));
    assert!(!same_optional_bytes(&Some(vec![]), &None));
    let one = Some(Uint256 { hi: 0, lo: 1 });
    assert!(same_optional_h256(one, one) && !same_optional_h256(one, None));
}

#[test]
fn a_transfer_between_holders_is_balanced() {
    let mut data: OrdMap<MPTID, MptAccounting> = OrdMap::new();
    record_mpt_accounting(&mut data, &issued(100), true);
    record_mpt_accounting(&mut data, &issued(100), false);
    record_mpt_accounting(&mut data, &held(2, 60), true);
    record_mpt_accounting(&mut data, &held(2, 35), false);
    record_mpt_accounting(&mut data, &held(3, 40), true);
    assert_eq!(data.get(mpt()).unwrap().amount_delta, -65);
    assert!(!validates_mpt_accounting(&data, true));
    record_mpt_accounting(&mut data, &held(3, 65), false);
    assert_eq!(data.get(mpt()).unwrap().amount_delta, 0);
    assert!(validates_mpt_accounting(&data, true));
}

#[test]
fn what_appears_from_nowhere_is_found() {
    let mut data: OrdMap<MPTID, MptAccounting> = OrdMap::new();
    record_mpt_accounting(&mut data, &held(2, 60), true);
    record_mpt_accounting(&mut data, &held(2, 61), false);
    assert!(!validates_mpt_accounting(&data, true));
    assert!(validates_mpt_accounting(&data, false));
    assert!(validates_mpt_accounting_for_transaction(&data, true, TxType::CONFIDENTIAL_MPT_SEND));
    assert!(!validates_mpt_accounting_for_transaction(&data, true, TxType::PAYMENT));
}

#[test]
fn amounts_keep_below_their_limits() {
    let mut data: OrdMap<MPTID, MptAccounting> = OrdMap::new();
    let mut over = token(2, i64::MAX as u64);
    over.locked_amount = 1;
    record_mpt_accounting(&mut data, &LedgerEntry::MPToken(over), false);
    let entry = data.get(mpt()).unwrap();
    assert!(entry.overflow && entry.amount_delta == 0);
    let mut data: OrdMap<MPTID, MptAccounting> = OrdMap::new();
    let beyond = MPTokenIssuance { maximum_amount: Some(9), ..issuance(10) };
    record_mpt_accounting(&mut data, &LedgerEntry::MPTokenIssuance(beyond), false);
    assert!(data.get(mpt()).unwrap().overflow);
    record_mpt_accounting(&mut data, &LedgerEntry::Other, true);
    assert_eq!(data.entries.len(), 1);
}

#[test]
fn confidential_sums() {
    assert_eq!(capped_delta(5), 5);
    assert_eq!(capped_delta(u64::MAX), i64::MAX as i128);
    // A holder turns 30 of its public amount into an encrypted balance.
    let mut changes: OrdMap<MPTID, ConfidentialMptChange> = OrdMap::new();
    let before = Some(LedgerEntry::MPToken(encrypted(100, 1, 1)));
    let after = LedgerEntry::MPToken(encrypted(70, 9, 2));
    record_confidential_mpt(&mut changes, false, &before, &after);
    let was = Some(issued(100));
    let is = LedgerEntry::MPTokenIssuance(MPTokenIssuance {
        confidential_outstanding_amount: Some(30),
        ..issuance(100)
    });
    record_confidential_mpt(&mut changes, false, &was, &is);
    let change = changes.get(mpt()).unwrap();
    assert_eq!((change.mpt_amount_delta, change.coa_delta, change.outstanding_delta), (-30, 30, 0));
    assert!(change.changes_confidential_fields && !change.bad_version);
    let reads = vec![IssuanceRead::Missing];
    let good = Ter::TES_SUCCESS;
    assert!(validates_confidential_mpt(&reads, TxType::CONFIDENTIAL_MPT_CONVERT, good, &changes));
    let mut short: OrdMap<MPTID, ConfidentialMptChange> = OrdMap::new();
    record_confidential_mpt(&mut short, false, &was, &is);
    assert!(!validates_confidential_mpt(&reads, TxType::CONFIDENTIAL_MPT_CONVERT, good, &short));
    let killed = Ter::TEC_KILLED;
    assert!(validates_confidential_mpt(&reads, TxType::CONFIDENTIAL_MPT_CONVERT, killed, &short));
}

#[test]
fn confidential_faults() {
    let found = vec![IssuanceRead::Found(issuance(100))];
    let good = Ter::TES_SUCCESS;
    let verdict = |is_delete, before: Option<MPToken>, after: MPToken, read: &Vec<IssuanceRead>| {
        let mut changes: OrdMap<MPTID, ConfidentialMptChange> = OrdMap::new();
        let before = before.map(LedgerEntry::MPToken);
        record_confidential_mpt(&mut changes, is_delete, &before, &LedgerEntry::MPToken(after));
        validates_confidential_mpt(read, TxType::PAYMENT, good, &changes)
    };
    assert!(verdict(false, Some(encrypted(5, 1, 1)), encrypted(5, 1, 1), &found));
    // The spending balance moved, its version did not.
    assert!(!verdict(false, Some(encrypted(5, 1, 1)), encrypted(5, 2, 1), &found));
    let mut half = encrypted(5, 1, 1);
    half.confidential_balance_inbox = None;
    assert!(!verdict(false, None, half, &found));
    let mut auditor = token(2, 5);
    auditor.auditor_encrypted_balance = Some(vec![1]);
    assert!(!verdict(false, None, auditor, &found));
    let public = MPTokenIssuance { can_hold_confidential_balance: false, ..issuance(100) };
    assert!(!verdict(false, None, encrypted(5, 1, 1), &vec![IssuanceRead::Found(public)]));
    assert!(verdict(false, None, encrypted(5, 1, 1), &found));
    let failed = vec![IssuanceRead::Failed(ViewError { id: 1 })];
    assert!(!verdict(false, None, encrypted(5, 1, 1), &failed));
    let hidden =
        MPTokenIssuance { confidential_outstanding_amount: Some(3), ..issuance(100) };
    let hidden = vec![IssuanceRead::Found(hidden)];
    assert!(!verdict(true, Some(encrypted(0, 1, 1)), encrypted(0, 1, 1), &hidden));
    assert!(verdict(true, Some(token(2, 0)), token(2, 0), &hidden));
    let mut changes: OrdMap<MPTID, ConfidentialMptChange> = OrdMap::new();
    let over =
        MPTokenIssuance { confidential_outstanding_amount: Some(101), ..issuance(100) };
    record_confidential_mpt(&mut changes, false, &None, &LedgerEntry::MPTokenIssuance(over));
    assert!(changes.get(mpt()).unwrap().bad_coa);
}

fn nothing() -> VaultAccountReads {
    VaultAccountReads { first: Ok(false), second: Ok(false) }
}

#[test]
fn lifecycles_are_counted() {
    let mut seen = MptIssuanceLifecycle::new();
    let create = TxType::MPTOKEN_ISSUANCE_CREATE;
    let made = Some(issued(0));
    assert!(record_mpt_issuance_lifecycle(
        nothing(), create, &mut seen, false, &None, &made, &LedgerEntry::Other
    )
    .is_ok());
    assert_eq!((seen.issuances_created, seen.tokens_created), (1, 0));
    let own = Some(held(1, 0));
    let _ = record_mpt_issuance_lifecycle(
        nothing(), create, &mut seen, false, &None, &own, &LedgerEntry::Other,
    );
    assert!(seen.token_created_by_issuer && seen.tokens_created == 1);
    let gone = held(2, 0);
    let _ = record_mpt_issuance_lifecycle(
        nothing(), create, &mut seen, true, &Some(held(2, 0)), &None, &gone,
    );
    assert_eq!(seen.tokens_deleted, 1);
    assert!(validates_mpt_issuance_lifecycle(&seen));
    let linked = MPTokenIssuance {
        reference_holding: Some(Uint256 { hi: 0, lo: 4 }),
        ..issuance(0)
    };
    let mut changed = MptIssuanceLifecycle::new();
    let after = Some(LedgerEntry::MPTokenIssuance(linked));
    let _ = record_mpt_issuance_lifecycle(
        nothing(), create, &mut changed, false, &made, &after, &LedgerEntry::Other,
    );
    assert!(changed.reference_holding_mutated && !validates_mpt_issuance_lifecycle(&changed));
    let mut set = MptIssuanceLifecycle::new();
    let _ = record_mpt_issuance_lifecycle(
        nothing(), create, &mut set, false, &None, &after, &LedgerEntry::Other,
    );
    assert!(set.reference_holding_set_on_create);
    let mut vault = MptIssuanceLifecycle::new();
    let _ = record_mpt_issuance_lifecycle(
        nothing(), TxType::VAULT_CREATE, &mut vault, false, &None, &after, &LedgerEntry::Other,
    );
    assert!(!vault.reference_holding_set_on_create);
}

#[test]
fn vault_holdings_stay() {
    let line = LedgerEntry::RippleState { low: account(1), high: account(2) };
    let reads = VaultAccountReads { first: Ok(false), second: Ok(true) };
    let mut seen = MptIssuanceLifecycle::new();
    let r = record_mpt_issuance_lifecycle(
        reads, TxType::PAYMENT, &mut seen, true, &None, &None, &line,
    );
    assert!(r.is_ok() && seen.vault_holding_deleted);
    let mut seen = MptIssuanceLifecycle::new();
    let _ = record_mpt_issuance_lifecycle(
        reads, TxType::VAULT_DELETE, &mut seen, true, &None, &None, &line,
    );
    assert!(!seen.vault_holding_deleted);
    let error = ViewError { id: 3 };
    let failed = VaultAccountReads { first: Err(error), second: Ok(false) };
    let mut seen = MptIssuanceLifecycle::new();
    let r = record_mpt_issuance_lifecycle(
        failed, TxType::PAYMENT, &mut seen, true, &None, &None, &held(2, 0),
    );
    assert_eq!(r, Err(error));
    assert_eq!(seen.tokens_deleted, 1);
    assert_eq!(is_vault_pseudo_account(Ok(Some(true))), Ok(true));
    assert_eq!(is_vault_pseudo_account(Ok(None)), Ok(false));
    assert_eq!(is_vault_pseudo_account(Err(error)), Err(error));
}

#[test]
fn privileges() {
    assert!(has_create_mpt_issuance_privilege(TxType::VAULT_CREATE));
    assert!(has_destroy_mpt_issuance_privilege(TxType::VAULT_DELETE));
    assert!(has_must_authorize_mpt_privilege(TxType::MPTOKEN_AUTHORIZE));
    assert!(has_may_authorize_mpt_privilege(TxType::LOAN_PAY));
    assert!(has_may_create_mpt_privilege(TxType::CHECK_CASH));
    assert!(has_may_delete_mpt_privilege(TxType::AMM_DELETE));
    assert!(!has_may_delete_mpt_privilege(TxType::PAYMENT));
}

#[test]
fn counts_are_held_against_the_type() {
    let rules = LifecycleRules {
        single_asset_vault_enabled: false,
        lending_protocol_enabled: false,
        mptokens_v2_enabled: true,
    };
    let lending = LifecycleRules { lending_protocol_enabled: true, ..rules };
    let good = Ter::TES_SUCCESS;
    let none = MptIssuanceLifecycle::new();
    let counts = |issuances_created, issuances_deleted, tokens_created, tokens_deleted| {
        MptIssuanceLifecycle {
            issuances_created,
            issuances_deleted,
            tokens_created,
            tokens_deleted,
            ..MptIssuanceLifecycle::new()
        }
    };
    let valid = |t, holder, rules, l: MptIssuanceLifecycle| {
        validates_mpt_lifecycle_counts(t, good, holder, rules, &l)
    };
    assert!(valid(TxType::MPTOKEN_ISSUANCE_CREATE, false, rules, counts(1, 0, 0, 0)));
    assert!(!valid(TxType::MPTOKEN_ISSUANCE_CREATE, false, rules, none));
    assert!(valid(TxType::MPTOKEN_ISSUANCE_DESTROY, false, rules, counts(0, 1, 0, 0)));
    assert!(valid(TxType::MPTOKEN_AUTHORIZE, false, rules, counts(0, 0, 1, 0)));
    assert!(!valid(TxType::MPTOKEN_AUTHORIZE, false, rules, none));
    assert!(valid(TxType::MPTOKEN_AUTHORIZE, true, rules, none));
    assert!(!valid(TxType::MPTOKEN_AUTHORIZE, true, rules, counts(0, 0, 0, 1)));
    assert!(!valid(TxType::LOAN_PAY, false, lending, counts(0, 0, 1, 1)));
    assert!(valid(TxType::AMM_WITHDRAW, false, rules, counts(0, 0, 1, 2)));
    assert!(!valid(TxType::AMM_WITHDRAW, true, rules, counts(0, 0, 1, 0)));
    assert!(valid(TxType::AMM_CREATE, false, rules, counts(0, 0, 2, 0)));
    assert!(!valid(TxType::AMM_CREATE, false, rules, counts(0, 0, 3, 0)));
    assert!(!valid(TxType::CHECK_CASH, false, rules, counts(0, 0, 2, 0)));
    assert!(valid(TxType::ESCROW_FINISH, false, rules, counts(1, 1, 1, 1)));
    assert!(!valid(TxType::ESCROW_FINISH, false, lending, counts(1, 0, 0, 0)));
    assert!(valid(TxType::VAULT_CLAWBACK, false, rules, counts(0, 0, 0, 1)));
    assert!(!valid(TxType::ACCOUNT_SET, false, rules, counts(0, 0, 0, 1)));
    let own = MptIssuanceLifecycle { token_created_by_issuer: true, ..counts(0, 0, 1, 0) };
    assert!(!valid(TxType::PAYMENT, false, lending, own));
    assert!(valid(TxType::PAYMENT, false, rules, own));
    let incomplete = Ter::TEC_INCOMPLETE;
    assert!(!validates_mpt_lifecycle_counts(TxType::ACCOUNT_SET, incomplete, false, rules, &own));
    let killed = Ter::TEC_KILLED;
    assert!(validates_mpt_lifecycle_counts(TxType::ACCOUNT_SET, killed, false, rules, &own));
}

fn moved() -> OrdMap<HolderKey, MptTransferAmount> {
    let mut transfers: OrdMap<HolderKey, MptTransferAmount> = OrdMap::new();
    record_mpt_transfer(&mut transfers, &held(2, 60), true);
    record_mpt_transfer(&mut transfers, &held(2, 50), false);
    record_mpt_transfer(&mut transfers, &held(3, 0), true);
    record_mpt_transfer(&mut transfers, &held(3, 10), false);
    record_mpt_transfer(&mut transfers, &issued(60), false);
    transfers
}

fn reads(issuance: MPTokenIssuance) -> Vec<HolderReads> {
    vec![
        HolderReads {
            issuance: IssuanceRead::Found(issuance),
            frozen: Ok(false),
            authorization: Ok(Ter::TES_SUCCESS),
        };
        2
    ]
}

fn rules() -> TransferRules {
    TransferRules {
        txn_type: TxType::PAYMENT,
        cross_currency_payment: false,
        fix_cleanup_3_2_0: true,
        mptokens_v2_enabled: true,
    }
}

#[test]
fn transfers_are_let_through_or_barred() {
    let transfers = moved();
    assert_eq!(transfers.entries.len(), 2);
    let groups = group_transfers(&transfers, &reads(issuance(60)));
    assert_eq!((groups.len(), groups[0].holders.len()), (1, 2));
    let verdict = |issuance, rules| validates_mpt_transfers(&transfers, &reads(issuance), rules);
    assert_eq!(verdict(issuance(60), rules()), Ok(true));
    let locked = MPTokenIssuance { locked: true, ..issuance(60) };
    assert_eq!(verdict(locked, rules()), Ok(false));
    let first = TransferRules { mptokens_v2_enabled: false, ..rules() };
    assert_eq!(verdict(locked, first), Ok(true));
    let clawback = TransferRules { txn_type: TxType::AMM_CLAWBACK, ..rules() };
    assert_eq!(verdict(locked, clawback), Ok(true));
    let fixed = MPTokenIssuance { can_transfer: false, ..issuance(60) };
    assert_eq!(verdict(fixed, rules()), Ok(false));
    let loan = TransferRules { txn_type: TxType::LOAN_PAY, ..rules() };
    assert_eq!(verdict(fixed, loan), Ok(true));
    let idle = MPTokenIssuance { can_trade: false, ..issuance(60) };
    assert_eq!(verdict(idle, rules()), Ok(true));
    let crossing = TransferRules { cross_currency_payment: true, ..rules() };
    assert_eq!(verdict(idle, crossing), Ok(false));
    assert!(mpt_transfer_is_dex(TxType::AMM_DEPOSIT, false));
    assert!(!mpt_transfer_waives_can_transfer(TxType::LOAN_PAY, false));
}

#[test]
fn holders_can_bar_a_transfer() {
    let transfers = moved();
    let error = ViewError { id: 8 };
    let mut frozen = reads(issuance(60));
    frozen[0].frozen = Ok(true);
    assert_eq!(validates_mpt_transfers(&transfers, &frozen, rules()), Ok(false));
    frozen[0].frozen = Err(error);
    assert_eq!(validates_mpt_transfers(&transfers, &frozen, rules()), Err(error));
    let mut asked = reads(issuance(60));
    asked[1].authorization = Err(error);
    assert_eq!(validates_mpt_transfers(&transfers, &asked, rules()), Ok(true));
    let mut asked = reads(MPTokenIssuance { require_auth: true, ..issuance(60) });
    asked[1].authorization = Ok(Ter::TEC_NO_PERMISSION);
    assert_eq!(validates_mpt_transfers(&transfers, &asked, rules()), Ok(false));
    asked[1].authorization = Err(error);
    assert_eq!(validates_mpt_transfers(&transfers, &asked, rules()), Err(error));
    let mut missing = reads(issuance(60));
    missing[0].issuance = IssuanceRead::Missing;
    missing[0].frozen = Ok(true);
    assert_eq!(validates_mpt_transfers(&transfers, &missing, rules()), Ok(true));
}

#[test]
fn one_sided_changes_pass() {
    let mut transfers: OrdMap<HolderKey, MptTransferAmount> = OrdMap::new();
    record_mpt_transfer(&mut transfers, &held(2, 60), true);
    record_mpt_transfer(&mut transfers, &held(2, 90), false);
    let locked = MPTokenIssuance { locked: true, ..issuance(60) };
    let mut one = reads(locked);
    one.pop();
    assert_eq!(validates_mpt_transfers(&transfers, &one, rules()), Ok(true));
}

#[test]
fn maps_keep_their_order() {
    let mut map: OrdMap<AccountID, u8> = OrdMap::new();
    map.insert(account(5), 1);
    map.insert(account(2), 2);
    map.insert(account(5), 3);
    assert_eq!(map.entries, vec![(account(2), 2), (account(5), 3)]);
    assert_eq!(map.get(account(9)), None);
    assert_eq!(map.get_or(account(9), 7), 7);
}
