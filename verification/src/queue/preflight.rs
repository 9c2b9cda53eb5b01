//! What is found of a transaction by its fields alone.
use vstd::prelude::*;
use crate::ids::Uint256;
use crate::limits::MAX_TOKEN_OFFER_CANCEL_COUNT;
use crate::submit::flags::ApplyFlags;
use crate::ter::{Ter, is_tes_success};
use crate::tx_type::TxType;

verus! {

/// The fields of a transaction that changes the network itself; where a field is absent there is
/// nothing of it.
pub struct ChangeFields {
    pub account_is_zero: bool,
    pub fee_is_native: bool,
    pub fee_drops: i64,
    pub signing_pub_key_len: Option<usize>,
    pub txn_signature_len: Option<usize>,
    pub signers_present: bool,
    pub sequence: Option<u32>,
    pub previous_txn_id_present: bool,
}

/// What such a transaction is judged by.
#[derive(Clone, Copy, Debug, PartialEq, Eq, Structural)]
pub struct ChangePreflightFacts {
    pub account_is_zero: bool,
    pub fee_is_native_and_zero: bool,
    pub signing_pub_key_empty: bool,
    pub signature_empty: bool,
    pub signers_present: bool,
    pub sequence_is_zero: bool,
    pub previous_txn_id_present: bool,
}

pub open spec fn nothing_in(len: Option<usize>) -> bool {
    match len {
        Some(len) => len == 0,
        None => true,
    }
}

fn is_nothing(len: Option<usize>) -> (r: bool)
    ensures
        r == nothing_in(len),
{
    match len {
        Some(len) => len == 0,
        None => true,
    }
}

/// What a transaction that changes the network is judged by.
pub fn change_preflight_facts(fields: &ChangeFields) -> (r: ChangePreflightFacts)
    ensures
        r == (ChangePreflightFacts {
            account_is_zero: fields.account_is_zero,
            fee_is_native_and_zero: fields.fee_is_native && fields.fee_drops == 0,
            signing_pub_key_empty: nothing_in(fields.signing_pub_key_len),
            signature_empty: nothing_in(fields.txn_signature_len),
            signers_present: fields.signers_present,
            sequence_is_zero: fields.sequence is None || fields.sequence == Some(0u32),
            previous_txn_id_present: fields.previous_txn_id_present,
        }),
{
    ChangePreflightFacts {
        account_is_zero: fields.account_is_zero,
        fee_is_native_and_zero: fields.fee_is_native && fields.fee_drops == 0,
        signing_pub_key_empty: is_nothing(fields.signing_pub_key_len),
        signature_empty: is_nothing(fields.txn_signature_len),
        signers_present: fields.signers_present,
        sequence_is_zero: match fields.sequence {
            Some(sequence) => sequence == 0,
            None => true,
        },
        previous_txn_id_present: fields.previous_txn_id_present,
    }
}

/// What is found of a transaction that changes the network; where nothing can be found of it, its
/// type is not known.
pub fn change_pseudo_transaction_preflight_ter(checked: Option<Ter>) -> (r: Ter)
    ensures
        r == (match checked {
            Some(ter) => ter,
            None => Ter::TEM_UNKNOWN,
        }),
{
    match checked {
        Some(ter) => ter,
        None => Ter::TEM_UNKNOWN,
    }
}

pub open spec fn repeats(ids: Seq<Uint256>) -> bool {
    exists|i: int, j: int| 0 <= i < j < ids.len() && ids[i] == ids[j]
}

pub open spec fn names_nothing(ids: Seq<Uint256>) -> bool {
    exists|i: int| 0 <= i < ids.len() && ids[i] == Uint256::spec_zero()
}

/// Whether an identifier occurs twice.
pub fn has_repetition(ids: &Vec<Uint256>) -> (r: bool)
    ensures
        r == repeats(ids@),
{
    let mut i: usize = 0;
    while i < ids.len()
        invariant
            i <= ids@.len(),
            forall|a: int, b: int| 0 <= a < i && a < b < ids@.len() ==> ids@[a] != ids@[b],
        decreases ids@.len() - i,
    {
        let mut j: usize = i + 1;
        while j < ids.len()
            invariant
                i < j <= ids@.len(),
                forall|b: int| i < b < j ==> ids@[i as int] != ids@[b],
            decreases ids@.len() - j,
        {
            if ids[i] == ids[j] {
                assert(ids@[i as int] == ids@[j as int]);
                return true;
            }
            j = j + 1;
        }
        i = i + 1;
    }
    false
}

/// Whether an identifier names nothing.
pub fn has_zero(ids: &Vec<Uint256>) -> (r: bool)
    ensures
        r == names_nothing(ids@),
{
    let mut i: usize = 0;
    while i < ids.len()
        invariant
            i <= ids@.len(),
            forall|a: int| 0 <= a < i ==> ids@[a] != Uint256::spec_zero(),
        decreases ids@.len() - i,
    {
        if ids[i].is_zero() {
            return true;
        }
        i = i + 1;
    }
    false
}

/// A list of offers to cancel: some, not too many, each once, and, under the newer rule, none
/// that names nothing.
pub open spec fn good_cancel_list(ids: Seq<Uint256>, reject_zero: bool) -> bool {
    0 < ids.len() <= MAX_TOKEN_OFFER_CANCEL_COUNT && !(reject_zero && names_nothing(ids))
        && !repeats(ids)
}

/// Whether the list of offers to cancel is a good one.
pub fn check_cancel_list(ids: &Vec<Uint256>, reject_zero: bool) -> (r: Ter)
    ensures
        r == (if good_cancel_list(ids@, reject_zero) {
            Ter::TES_SUCCESS
        } else {
            Ter::TEM_MALFORMED
        }),
{
    if ids.len() == 0 || ids.len() > MAX_TOKEN_OFFER_CANCEL_COUNT {
        return Ter::TEM_MALFORMED;
    }
    if reject_zero && has_zero(ids) {
        return Ter::TEM_MALFORMED;
    }
    if has_repetition(ids) {
        return Ter::TEM_MALFORMED;
    }
    Ter::TES_SUCCESS
}

/// What is known of a transaction by its fields. Each answer counts only where the question comes
/// up.
pub struct PreflightFacts {
    pub txn_type: TxType,
    /// The check of a transaction that changes the network.
    pub change: Option<Ter>,
    /// The check that every other transaction passes first.
    pub semantic: Ter,
    pub nftoken_offers: Vec<Uint256>,
    pub fix_cleanup_3_2_0: bool,
    /// The check of the signature of the other party of a loan.
    pub counterparty: Result<(), Ter>,
    pub inner_batch_flag: bool,
    pub signature_good: bool,
    pub credential_ids: Option<Vec<Uint256>>,
    pub fix_cleanup_3_4_0: bool,
    pub credential_fields: Ter,
    pub batch_signatures: Ter,
}

impl PreflightFacts {
    /// What is found of the fields that are peculiar to its type.
    pub open spec fn typed(self) -> Ter {
        if self.txn_type == TxType::NFTOKEN_CANCEL_OFFER && !good_cancel_list(
            self.nftoken_offers@,
            self.fix_cleanup_3_2_0,
        ) {
            Ter::TEM_MALFORMED
        } else if self.txn_type == TxType::LOAN_SET {
            match self.counterparty {
                Ok(_) => Ter::TES_SUCCESS,
                Err(ter) => ter,
            }
        } else {
            Ter::TES_SUCCESS
        }
    }

    /// What is found of it behind a good signature.
    pub open spec fn signed(self) -> Ter {
        if self.txn_type == TxType::ESCROW_FINISH {
            match self.credential_ids {
                Some(ids) => if self.fix_cleanup_3_4_0 && names_nothing(ids@) {
                    Ter::TEM_MALFORMED
                } else {
                    self.credential_fields
                },
                None => Ter::TES_SUCCESS,
            }
        } else if self.txn_type == TxType::BATCH {
            self.batch_signatures
        } else {
            Ter::TES_SUCCESS
        }
    }

    /// What is found of it, looked at as a part of a batch or not, and in a simulation or not.
    pub open spec fn result(self, in_batch: bool, dry_run: bool) -> Ter {
        if self.txn_type.change_pseudo_transaction() {
            match self.change {
                Some(ter) => ter,
                None => Ter::TEM_UNKNOWN,
            }
        } else if !self.semantic.success() {
            self.semantic
        } else if !self.typed().success() {
            self.typed()
        } else if in_batch {
            if self.inner_batch_flag {
                Ter::TES_SUCCESS
            } else {
                Ter::TEM_INVALID_INNER_BATCH
            }
        } else if dry_run {
            Ter::TES_SUCCESS
        } else if !self.signature_good {
            Ter::TEM_INVALID
        } else {
            self.signed()
        }
    }
}

/// What is found of the signature of the other party of a loan.
pub fn loan_set_counterparty_preflight_ter(checked: Result<(), Ter>) -> (r: Ter)
    ensures
        r == (match checked {
            Ok(_) => Ter::TES_SUCCESS,
            Err(ter) => ter,
        }),
{
    match checked {
        Ok(_) => Ter::TES_SUCCESS,
        Err(ter) => ter,
    }
}

/// What is found of a transaction by its fields, looked at as a part of a batch or not.
pub fn transaction_preflight_ter_with_parent_batch_id(
    facts: &PreflightFacts,
    in_batch: bool,
    flags: ApplyFlags,
) -> (r: Ter)
    ensures
        r == facts.result(in_batch, flags.dry_run),
{
    if matches!(facts.txn_type, TxType::AMENDMENT | TxType::FEE | TxType::UNL_MODIFY) {
        return change_pseudo_transaction_preflight_ter(facts.change);
    }
    if !is_tes_success(facts.semantic) {
        return facts.semantic;
    }
    if facts.txn_type == TxType::NFTOKEN_CANCEL_OFFER {
        let listed = check_cancel_list(&facts.nftoken_offers, facts.fix_cleanup_3_2_0);
        if !is_tes_success(listed) {
            return listed;
        }
    }
    if facts.txn_type == TxType::LOAN_SET {
        let counterparty = loan_set_counterparty_preflight_ter(facts.counterparty);
        if !is_tes_success(counterparty) {
            return counterparty;
        }
    }
    if in_batch {
        return if facts.inner_batch_flag {
            Ter::TES_SUCCESS
        } else {
            Ter::TEM_INVALID_INNER_BATCH
        };
    }
    if flags.dry_run {
        return Ter::TES_SUCCESS;
    }
    if !facts.signature_good {
        return Ter::TEM_INVALID;
    }
    if facts.txn_type == TxType::ESCROW_FINISH {
        if let Some(ids) = &facts.credential_ids {
            if facts.fix_cleanup_3_4_0 && has_zero(ids) {
                return Ter::TEM_MALFORMED;
            }
            if !is_tes_success(facts.credential_fields) {
                return facts.credential_fields;
            }
        }
    }
    if facts.txn_type == TxType::BATCH {
        return facts.batch_signatures;
    }
    Ter::TES_SUCCESS
}

/// What is found of a transaction of its own by its fields.
pub fn transaction_preflight_ter_with_flags(facts: &PreflightFacts, flags: ApplyFlags) -> (r: Ter)
    ensures
        r == facts.result(false, flags.dry_run),
{
    transaction_preflight_ter_with_parent_batch_id(facts, false, flags)
}

/// What is found by its fields of a transaction of its own that is meant to be applied.
pub fn transaction_preflight_ter(facts: &PreflightFacts) -> (r: Ter)
    ensures
        r == facts.result(false, false),
{
    transaction_preflight_ter_with_flags(facts, ApplyFlags::none())
}

/// Outside of a simulation and of a batch, no ordinary transaction passes with a bad signature.
pub proof fn bad_signature_never_passes(facts: PreflightFacts)
    requires
        !facts.txn_type.change_pseudo_transaction(),
        !facts.signature_good,
    ensures
        !facts.result(false, false).success(),
{
}

/// A part of a batch passes only if it is marked as one.
pub proof fn inner_transaction_is_marked(facts: PreflightFacts, dry_run: bool)
    requires
        !facts.txn_type.change_pseudo_transaction(),
        facts.result(true, dry_run).success(),
    ensures
        facts.inner_batch_flag,
{
}

} // verus!
