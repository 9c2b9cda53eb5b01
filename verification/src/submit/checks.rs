//! What is looked at before anything changes.
use vstd::prelude::*;
use crate::ids::{AccountID, Uint256};
use crate::submit::flags::{Present, Read};
use crate::ter::{Ter, admits_apply, is_tes_success};
use crate::tx_type::TxType;

verus! {

/// The place of a transaction in the order of its account.
#[derive(Clone, Copy, Debug, PartialEq, Eq, Structural)]
pub enum SeqProxy {
    Sequence(u32),
    Ticket(u32),
}

impl SeqProxy {
    /// The place comes first: every sequence comes before every ticket, and of one kind the lower
    /// number.
    pub open spec fn before(self, other: SeqProxy) -> bool {
        match (self, other) {
            (SeqProxy::Sequence(a), SeqProxy::Sequence(b)) => a < b,
            (SeqProxy::Ticket(a), SeqProxy::Ticket(b)) => a < b,
            (SeqProxy::Sequence(_), SeqProxy::Ticket(_)) => true,
            (SeqProxy::Ticket(_), SeqProxy::Sequence(_)) => false,
        }
    }

    /// Whether this place comes before the other.
    pub fn comes_before(self, other: SeqProxy) -> (r: bool)
        ensures
            r == self.before(other),
    {
        match (self, other) {
            (SeqProxy::Sequence(a), SeqProxy::Sequence(b)) => a < b,
            (SeqProxy::Ticket(a), SeqProxy::Ticket(b)) => a < b,
            (SeqProxy::Sequence(_), SeqProxy::Ticket(_)) => true,
            (SeqProxy::Ticket(_), SeqProxy::Sequence(_)) => false,
        }
    }

    /// The number, whichever kind it is of.
    pub fn value(self) -> (r: u32)
        ensures
            r == self.spec_value(),
    {
        match self {
            SeqProxy::Sequence(value) => value,
            SeqProxy::Ticket(value) => value,
        }
    }

    pub open spec fn spec_value(self) -> u32 {
        match self {
            SeqProxy::Sequence(value) => value,
            SeqProxy::Ticket(value) => value,
        }
    }

    /// Whether a ticket stands for the sequence.
    pub fn is_ticket(self) -> (r: bool)
        ensures
            r == (self is Ticket),
    {
        matches!(self, SeqProxy::Ticket(_))
    }
}

/// A fee as the transaction states it.
#[derive(Clone, Copy, Debug, PartialEq, Eq, Structural)]
pub struct FeeField {
    pub native: bool,
    pub drops: i64,
}

/// What a sponsor takes over.
#[derive(Clone, Copy, Debug, PartialEq, Eq, Structural)]
pub struct SponsorFlags {
    pub fee: bool,
    pub reserve: bool,
    /// A bit is set that means nothing.
    pub unknown: bool,
}

/// Who stands in for the account of a transaction.
#[derive(Clone, Copy, Debug, PartialEq, Eq, Structural)]
pub struct Sponsor {
    pub account: AccountID,
    pub flags: Option<SponsorFlags>,
    pub signed: bool,
}

/// A transaction, as far as applying it looks at its own fields.
#[derive(Clone, Copy, Debug, PartialEq, Eq, Structural)]
pub struct SubmitTx {
    pub id: Uint256,
    pub txn_type: TxType,
    pub account: Option<AccountID>,
    pub fee: Option<FeeField>,
    pub seq_proxy: SeqProxy,
    pub account_txn_id: Option<Uint256>,
    pub last_ledger_sequence: Option<u32>,
    pub sponsor: Option<Sponsor>,
    pub has_delegate: bool,
    pub fee_payer: AccountID,
    pub inner_batch: bool,
    /// The offer that the transaction is to replace.
    pub replaced_offer: Option<Uint256>,
}

/// The account of a transaction, as the ledger has it.
#[derive(Clone, Copy, Debug, PartialEq, Eq, Structural)]
pub struct AccountRoot {
    pub balance: Option<i64>,
    pub account_txn_id: Option<Uint256>,
    pub ticket_count: Option<u32>,
    pub owner_count: u32,
}

/// What a standing sponsorship asks for.
#[derive(Clone, Copy, Debug, PartialEq, Eq, Structural)]
pub struct Sponsorship {
    pub require_sign_for_fee: bool,
    pub require_sign_for_reserve: bool,
}

/// What the ledger and the checks elsewhere say of a transaction before it changes anything.
#[derive(Clone, Copy, Debug, PartialEq, Eq, Structural)]
pub struct ShellFacts {
    pub preclaim_result: Ter,
    pub pseudo_preflight: Ter,
    pub invalid_amount: bool,
    pub fix_cleanup_3_2_0: bool,
    pub ledger_seq: u32,
    pub open: bool,
    pub account_root: Read<AccountRoot>,
    pub recorded: Read<Present>,
    pub offer_preclaim: Ter,
    pub oracle_preclaim: Ter,
    pub sponsor_root: Read<Present>,
    pub sponsorship: Read<Sponsorship>,
}

/// What becomes of the transaction at this point.
#[derive(Clone, Copy, Debug, PartialEq, Eq, Structural)]
pub enum Admission {
    /// It ends here.
    Refused(Ter),
    /// Its handler runs at once; neither a sequence nor a fee is taken.
    Direct,
    /// Its sequence and its fee are taken first.
    Preamble(Preamble),
}

/// Who pays, where it matters.
#[derive(Clone, Copy, Debug, PartialEq, Eq, Structural)]
pub struct Preamble {
    pub account: AccountID,
    pub account_root: AccountRoot,
    pub fee_sponsored: bool,
    pub prefunded: bool,
}

impl SubmitTx {
    /// The fee in drops; none is zero.
    pub open spec fn fee_drops(self) -> i64 {
        match self.fee {
            Some(fee) => fee.drops,
            None => 0,
        }
    }

    pub open spec fn fee_sponsored(self) -> bool {
        self.sponsor matches Some(sponsor) && sponsor.flags matches Some(flags) && flags.fee
    }

    /// What is wrong with the fields themselves.
    pub open spec fn field_fault(self, facts: ShellFacts) -> Option<Ter> {
        if self.account == Some(AccountID::spec_zero()) {
            Some(Ter::TEM_BAD_SRC_ACCOUNT)
        } else if self.fee matches Some(fee) && (!fee.native || fee.drops < 0) {
            Some(Ter::TEM_BAD_FEE)
        } else if self.seq_proxy is Ticket && self.account_txn_id is Some {
            Some(Ter::TEM_INVALID)
        } else if facts.fix_cleanup_3_2_0 && facts.invalid_amount {
            Some(Ter::TEM_BAD_AMOUNT)
        } else {
            None
        }
    }

    /// Why the transaction cannot come now: another one was to come before it, it is too late,
    /// or it has been here already.
    pub open spec fn order_fault(self, root: AccountRoot, facts: ShellFacts) -> Option<Ter> {
        if self.account_txn_id matches Some(prior) && prior != (match root.account_txn_id {
            Some(id) => id,
            None => Uint256::spec_zero(),
        }) {
            Some(Ter::TEF_WRONG_PRIOR)
        } else if self.last_ledger_sequence matches Some(last) && facts.ledger_seq > last {
            Some(Ter::TEF_MAX_LEDGER)
        } else {
            match facts.recorded {
                Read::Found(_) => Some(Ter::TEF_ALREADY),
                Read::Missing => None,
                Read::Failed => Some(Ter::TEF_BAD_LEDGER),
            }
        }
    }

    /// The check of its own that an offer has; other types pass it.
    pub open spec fn offer_check(self, facts: ShellFacts) -> Ter {
        if self.txn_type == TxType::OFFER_CREATE {
            facts.offer_preclaim
        } else {
            Ter::TES_SUCCESS
        }
    }

    /// The check of its own that an oracle has; other types pass it.
    pub open spec fn oracle_check(self, facts: ShellFacts) -> Ter {
        if self.txn_type == TxType::ORACLE_SET {
            facts.oracle_preclaim
        } else {
            Ter::TES_SUCCESS
        }
    }

    /// Why the sponsor cannot stand in.
    pub open spec fn sponsor_fault(self, account: AccountID, facts: ShellFacts) -> Option<Ter> {
        match self.sponsor {
            None => None,
            Some(sponsor) => if sponsor.account == account {
                Some(Ter::TEM_MALFORMED)
            } else {
                match sponsor.flags {
                    None => Some(Ter::TEM_INVALID_FLAG),
                    Some(flags) => if flags.unknown || !(flags.fee || flags.reserve) {
                        Some(Ter::TEM_INVALID_FLAG)
                    } else if self.has_delegate && flags.reserve {
                        Some(Ter::TEM_INVALID)
                    } else {
                        match (facts.sponsor_root, facts.sponsorship) {
                            (Read::Missing, _) => Some(Ter::TER_NO_ACCOUNT),
                            (Read::Failed, _) => Some(Ter::TEF_BAD_LEDGER),
                            (_, Read::Failed) => Some(Ter::TEF_BAD_LEDGER),
                            (_, Read::Missing) => if sponsor.signed {
                                None
                            } else {
                                Some(Ter::TER_NO_PERMISSION)
                            },
                            (_, Read::Found(standing)) => if !sponsor.signed && ((flags.fee
                                && standing.require_sign_for_fee) || (flags.reserve
                                && standing.require_sign_for_reserve)) {
                                Some(Ter::TER_NO_PERMISSION)
                            } else {
                                None
                            },
                        }
                    },
                }
            },
        }
    }

    /// The handler runs at once where what was found before allows it.
    pub open spec fn direct(self, facts: ShellFacts) -> Admission {
        if facts.preclaim_result.success() {
            Admission::Direct
        } else {
            Admission::Refused(facts.preclaim_result)
        }
    }

    /// What becomes of the transaction: the first thing found against it decides.
    pub open spec fn admission(self, facts: ShellFacts) -> Admission {
        if self.txn_type.change_pseudo_transaction() {
            if facts.pseudo_preflight.success() {
                self.direct(facts)
            } else {
                Admission::Refused(facts.pseudo_preflight)
            }
        } else if let Some(ter) = self.field_fault(facts) {
            Admission::Refused(ter)
        } else {
            match (self.account, facts.account_root) {
                (None, _) => self.direct(facts),
                (_, Read::Missing) => Admission::Refused(Ter::TER_NO_ACCOUNT),
                (_, Read::Failed) => Admission::Refused(Ter::TEF_BAD_LEDGER),
                (Some(account), Read::Found(root)) => if let Some(ter) = self.order_fault(
                    root,
                    facts,
                ) {
                    Admission::Refused(ter)
                } else if !self.offer_check(facts).likely_to_claim_fee() {
                    Admission::Refused(self.offer_check(facts))
                } else if !self.oracle_check(facts).likely_to_claim_fee() {
                    Admission::Refused(self.oracle_check(facts))
                } else if let Some(ter) = self.sponsor_fault(account, facts) {
                    Admission::Refused(ter)
                } else {
                    Admission::Preamble(
                        Preamble {
                            account,
                            account_root: root,
                            fee_sponsored: self.fee_sponsored(),
                            prefunded: self.fee_sponsored() && facts.sponsorship is Found,
                        },
                    )
                },
            }
        }
    }
}

fn check_fields(tx: &SubmitTx, facts: &ShellFacts) -> (r: Option<Ter>)
    ensures
        r == tx.field_fault(*facts),
{
    if let Some(account) = tx.account {
        if account.is_zero() {
            return Some(Ter::TEM_BAD_SRC_ACCOUNT);
        }
    }
    if let Some(fee) = tx.fee {
        if !fee.native || fee.drops < 0 {
            return Some(Ter::TEM_BAD_FEE);
        }
    }
    if tx.seq_proxy.is_ticket() && tx.account_txn_id.is_some() {
        return Some(Ter::TEM_INVALID);
    }
    if facts.fix_cleanup_3_2_0 && facts.invalid_amount {
        return Some(Ter::TEM_BAD_AMOUNT);
    }
    None
}

fn check_order(tx: &SubmitTx, root: &AccountRoot, facts: &ShellFacts) -> (r: Option<Ter>)
    ensures
        r == tx.order_fault(*root, *facts),
{
    if let Some(wanted) = tx.account_txn_id {
        let prior = match root.account_txn_id {
            Some(id) => id,
            None => Uint256::zero(),
        };
        if prior != wanted {
            return Some(Ter::TEF_WRONG_PRIOR);
        }
    }
    if let Some(last) = tx.last_ledger_sequence {
        if facts.ledger_seq > last {
            return Some(Ter::TEF_MAX_LEDGER);
        }
    }
    match facts.recorded {
        Read::Found(_) => Some(Ter::TEF_ALREADY),
        Read::Missing => None,
        Read::Failed => Some(Ter::TEF_BAD_LEDGER),
    }
}

fn check_sponsor(tx: &SubmitTx, account: AccountID, facts: &ShellFacts) -> (r: Option<Ter>)
    ensures
        r == tx.sponsor_fault(account, *facts),
{
    let sponsor = match tx.sponsor {
        None => {
            return None;
        },
        Some(sponsor) => sponsor,
    };
    if sponsor.account == account {
        return Some(Ter::TEM_MALFORMED);
    }
    let flags = match sponsor.flags {
        None => {
            return Some(Ter::TEM_INVALID_FLAG);
        },
        Some(flags) => flags,
    };
    if flags.unknown || !(flags.fee || flags.reserve) {
        return Some(Ter::TEM_INVALID_FLAG);
    }
    if tx.has_delegate && flags.reserve {
        return Some(Ter::TEM_INVALID);
    }
    match facts.sponsor_root {
        Read::Found(_) => {},
        Read::Missing => {
            return Some(Ter::TER_NO_ACCOUNT);
        },
        Read::Failed => {
            return Some(Ter::TEF_BAD_LEDGER);
        },
    }
    match facts.sponsorship {
        Read::Failed => Some(Ter::TEF_BAD_LEDGER),
        Read::Missing => if sponsor.signed {
            None
        } else {
            Some(Ter::TER_NO_PERMISSION)
        },
        Read::Found(standing) => {
            if !sponsor.signed {
                if flags.fee && standing.require_sign_for_fee {
                    return Some(Ter::TER_NO_PERMISSION);
                }
                if flags.reserve && standing.require_sign_for_reserve {
                    return Some(Ter::TER_NO_PERMISSION);
                }
            }
            None
        },
    }
}

/// Whether the transaction is one that the network itself makes.
pub fn is_change_pseudo_transaction(txn_type: TxType) -> (r: bool)
    ensures
        r == txn_type.change_pseudo_transaction(),
{
    matches!(txn_type, TxType::AMENDMENT | TxType::FEE | TxType::UNL_MODIFY)
}

/// The check of its own that an offer has; other types pass it.
pub fn offer_check(tx: &SubmitTx, facts: &ShellFacts) -> (r: Ter)
    ensures
        r == tx.offer_check(*facts),
{
    if tx.txn_type == TxType::OFFER_CREATE {
        facts.offer_preclaim
    } else {
        Ter::TES_SUCCESS
    }
}

/// The check of its own that an oracle has; other types pass it.
pub fn oracle_check(tx: &SubmitTx, facts: &ShellFacts) -> (r: Ter)
    ensures
        r == tx.oracle_check(*facts),
{
    if tx.txn_type == TxType::ORACLE_SET {
        facts.oracle_preclaim
    } else {
        Ter::TES_SUCCESS
    }
}

/// What becomes of a transaction before it has changed anything.
pub fn check_submission(tx: &SubmitTx, facts: &ShellFacts) -> (r: Admission)
    ensures
        r == tx.admission(*facts),
{
    let direct = if is_tes_success(facts.preclaim_result) {
        Admission::Direct
    } else {
        Admission::Refused(facts.preclaim_result)
    };
    if is_change_pseudo_transaction(tx.txn_type) {
        return if is_tes_success(facts.pseudo_preflight) {
            direct
        } else {
            Admission::Refused(facts.pseudo_preflight)
        };
    }
    if let Some(ter) = check_fields(tx, facts) {
        return Admission::Refused(ter);
    }
    let account = match tx.account {
        Some(account) => account,
        None => {
            return direct;
        },
    };
    let root = match facts.account_root {
        Read::Found(root) => root,
        Read::Missing => {
            return Admission::Refused(Ter::TER_NO_ACCOUNT);
        },
        Read::Failed => {
            return Admission::Refused(Ter::TEF_BAD_LEDGER);
        },
    };
    if let Some(ter) = check_order(tx, &root, facts) {
        return Admission::Refused(ter);
    }
    let offer = offer_check(tx, facts);
    if !admits_apply(offer) {
        return Admission::Refused(offer);
    }
    let oracle = oracle_check(tx, facts);
    if !admits_apply(oracle) {
        return Admission::Refused(oracle);
    }
    if let Some(ter) = check_sponsor(tx, account, facts) {
        return Admission::Refused(ter);
    }
    let fee_sponsored = match tx.sponsor {
        Some(sponsor) => match sponsor.flags {
            Some(flags) => flags.fee,
            None => false,
        },
        None => false,
    };
    Admission::Preamble(
        Preamble {
            account,
            account_root: root,
            fee_sponsored,
            prefunded: fee_sponsored && matches!(facts.sponsorship, Read::Found(_)),
        },
    )
}

/// Nothing that stands before the fee makes a transaction claim one: a refusal here is never a
/// success and never claims a fee, unless what was found before did.
pub proof fn refusal_claims_no_fee(tx: SubmitTx, facts: ShellFacts)
    requires
        !facts.pseudo_preflight.claim(),
        !facts.preclaim_result.claim(),
    ensures
        tx.admission(facts) matches Admission::Refused(ter) ==> !ter.likely_to_claim_fee(),
{
}

} // verus!
