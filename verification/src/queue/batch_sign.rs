//! Who may sign a batch.
use vstd::prelude::*;
use crate::ids::AccountID;
use crate::submit::flags::Read;
use crate::ter::Ter;

verus! {

/// The account may not be signed for with its master key.
pub const LSF_DISABLE_MASTER: u32 = 0x0010_0000;

/// An account, as the ledger has it.
#[derive(Clone, Copy, Debug, PartialEq, Eq, Structural)]
pub struct SignerAccount {
    pub flags: u32,
    pub regular_key: Option<AccountID>,
}

/// An account, as far as signing for it goes.
#[derive(Clone, Copy, Debug, PartialEq, Eq, Structural)]
pub struct BatchPreclaimAccountState {
    pub regular_key: Option<AccountID>,
    pub master_disabled: bool,
}

/// One of those who sign for an account together, and its weight.
#[derive(Clone, Copy, Debug, PartialEq, Eq, Structural)]
pub struct SignerEntry {
    pub account: AccountID,
    pub weight: u16,
}

/// Those who sign for an account together, as the ledger has them.
#[derive(Debug)]
pub struct SignerListFields {
    pub signer_list_id: Option<u32>,
    pub quorum: u32,
    pub entries: Vec<SignerEntry>,
}

/// One of those who sign for an account together, with a weight that can be added up.
#[derive(Clone, Copy, Debug, PartialEq, Eq, Structural)]
pub struct BatchPreclaimAccountSigner {
    pub account: AccountID,
    pub weight: u32,
}

/// Those who sign for an account together, as they are checked.
#[derive(Debug)]
pub struct BatchPreclaimSignerList {
    pub signer_list_id_present: bool,
    pub signer_list_id: u32,
    pub quorum: u32,
    pub entries: Vec<BatchPreclaimAccountSigner>,
}

pub open spec fn spec_account_state(read: Read<SignerAccount>) -> Option<BatchPreclaimAccountState> {
    match read {
        Read::Found(account) => Some(
            BatchPreclaimAccountState {
                regular_key: account.regular_key,
                master_disabled: account.flags & LSF_DISABLE_MASTER != 0,
            },
        ),
        _ => None,
    }
}

/// An account as far as signing for it goes; none where it is not there or cannot be read.
pub fn batch_account_state(read: Read<SignerAccount>) -> (r: Option<BatchPreclaimAccountState>)
    ensures
        r == spec_account_state(read),
{
    match read {
        Read::Found(account) => Some(
            BatchPreclaimAccountState {
                regular_key: account.regular_key,
                master_disabled: (account.flags & LSF_DISABLE_MASTER) != 0,
            },
        ),
        _ => None,
    }
}

/// Those who sign for an account together, as they are checked.
pub fn batch_signer_list(list: &SignerListFields) -> (r: BatchPreclaimSignerList)
    ensures
        r.signer_list_id_present == (list.signer_list_id is Some),
        r.signer_list_id == (match list.signer_list_id {
            Some(id) => id,
            None => 0,
        }),
        r.quorum == list.quorum,
        r.entries@ == Seq::new(
            list.entries@.len(),
            |i: int|
                BatchPreclaimAccountSigner {
                    account: list.entries@[i].account,
                    weight: list.entries@[i].weight as u32,
                },
        ),
{
    let mut entries: Vec<BatchPreclaimAccountSigner> = Vec::new();
    let mut i: usize = 0;
    while i < list.entries.len()
        invariant
            i <= list.entries@.len(),
            entries@.len() == i,
            forall|j: int|
                0 <= j < i ==> (#[trigger] entries@[j]) == (BatchPreclaimAccountSigner {
                    account: list.entries@[j].account,
                    weight: list.entries@[j].weight as u32,
                }),
        decreases list.entries@.len() - i,
    {
        let entry = list.entries[i];
        entries.push(
            BatchPreclaimAccountSigner { account: entry.account, weight: entry.weight as u32 },
        );
        i = i + 1;
    }
    let signer_list_id: u32 = match list.signer_list_id {
        Some(id) => id,
        None => 0,
    };
    let r = BatchPreclaimSignerList {
        signer_list_id_present: list.signer_list_id.is_some(),
        signer_list_id,
        quorum: list.quorum,
        entries,
    };
    assert(r.entries@ =~= Seq::new(
        list.entries@.len(),
        |i: int|
            BatchPreclaimAccountSigner {
                account: list.entries@[i].account,
                weight: list.entries@[i].weight as u32,
            },
    ));
    r
}

/// A ledger entry could not be read.
pub open spec fn any_failed<T>(reads: Seq<Read<T>>) -> bool {
    exists|i: int| 0 <= i < reads.len() && #[trigger] reads[i] is Failed
}

fn has_failed<T>(reads: &Vec<Read<T>>) -> (r: bool)
    ensures
        r == any_failed(reads@),
{
    let mut i: usize = 0;
    while i < reads.len()
        invariant
            i <= reads@.len(),
            forall|j: int| 0 <= j < i ==> !(#[trigger] reads@[j] is Failed),
        decreases reads@.len() - i,
    {
        if let Read::Failed = reads[i] {
            assert(reads@[i as int] is Failed);
            return true;
        }
        i = i + 1;
    }
    false
}

/// What is found of the signers of a batch: nothing without signers, and no more than that the
/// ledger failed where one of the reads did. `checked` is what the check of the signatures says,
/// which was given the accounts and the lists that could be read.
pub fn batch_check_sign_ter(
    has_batch_signers: bool,
    accounts: &Vec<Read<SignerAccount>>,
    lists: &Vec<Read<SignerListFields>>,
    checked: Ter,
) -> (r: Ter)
    ensures
        r == (if !has_batch_signers {
            Ter::TES_SUCCESS
        } else if any_failed(accounts@) || any_failed(lists@) {
            Ter::TEF_BAD_LEDGER
        } else {
            checked
        }),
{
    if !has_batch_signers {
        return Ter::TES_SUCCESS;
    }
    if has_failed(accounts) || has_failed(lists) {
        Ter::TEF_BAD_LEDGER
    } else {
        checked
    }
}

} // verus!
