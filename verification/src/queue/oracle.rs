//! Setting the prices of an oracle: what is handed on to be judged.
use vstd::prelude::*;
use crate::bytes::same_bytes;
use crate::submit::flags::Read;
use crate::ter::{Ter, is_tes_success};

verus! {

/// A pair of currencies, by the number under which the caller keeps it.
#[derive(Clone, Copy, Debug, PartialEq, Eq, Structural)]
pub struct PricePair {
    pub base: u32,
    pub quote: u32,
}

/// One price that the transaction sets: its pair, and the rest of it by the number under which the
/// caller keeps it.
#[derive(Clone, Copy, Debug, PartialEq, Eq, Structural)]
pub struct SeriesEntry {
    pub pair: PricePair,
    pub price: u64,
}

/// What the reserve of the account is judged by.
#[derive(Clone, Copy, Debug, PartialEq, Eq, Structural)]
pub struct OracleReserve {
    pub balance_drops: i64,
    /// How many entries, and how many accounts, the account holds a reserve for.
    pub effective_owner_count: u32,
    pub effective_account_count: u32,
}

/// The oracle in the ledger.
pub struct OracleEntry {
    pub provider: Vec<u8>,
    pub asset_class: Vec<u8>,
    pub last_update_time: u32,
    pub pairs: Vec<PricePair>,
}

/// The oracle of the account, as it was read.
pub enum OracleRead {
    Found(OracleEntry),
    Missing,
    Failed,
}

/// The fields of a transaction that sets prices.
pub struct OracleSetTx {
    pub provider: Option<Vec<u8>>,
    pub asset_class: Option<Vec<u8>>,
    pub last_update_time: u32,
    pub series: Vec<SeriesEntry>,
}

/// What the transaction is judged by.
pub struct OracleSetPreclaimFacts {
    pub account_exists: bool,
    pub close_time_secs: u64,
    pub last_update_time_secs: u64,
    pub oracle_exists: bool,
    pub tx_provider_present: bool,
    pub tx_asset_class_present: bool,
    pub tx_provider_matches_existing: bool,
    pub tx_asset_class_matches_existing: bool,
    pub previous_last_update_time_secs: u64,
    pub tx_series: Vec<SeriesEntry>,
    pub existing_pairs: Vec<PricePair>,
    pub reserve: OracleReserve,
}

/// A field that is absent contradicts nothing.
pub open spec fn agrees(field: Option<Vec<u8>>, existing: Seq<u8>) -> bool {
    match field {
        Some(bytes) => bytes@ == existing,
        None => true,
    }
}

fn check_agrees(field: &Option<Vec<u8>>, existing: &Vec<u8>) -> (r: bool)
    ensures
        r == agrees(*field, existing@),
{
    match field {
        Some(bytes) => same_bytes(bytes, existing),
        None => true,
    }
}

pub open spec fn oracle_fault(preflight: Ter, account: Read<OracleReserve>, oracle: OracleRead) -> Option<
    Ter,
> {
    if !preflight.success() {
        Some(preflight)
    } else {
        match account {
            Read::Missing => Some(Ter::TER_NO_ACCOUNT),
            Read::Failed => Some(Ter::TEF_BAD_LEDGER),
            Read::Found(_) => if oracle is Failed {
                Some(Ter::TEF_BAD_LEDGER)
            } else {
                None
            },
        }
    }
}

/// What the transaction is judged by, or why it is not judged at all. The prices that it sets, and
/// what the reserve is judged by, are handed on as they came.
pub fn run_oracle_set_preclaim_with_view(
    preflight: Ter,
    account: Read<OracleReserve>,
    oracle: OracleRead,
    tx: OracleSetTx,
    close_time: u32,
) -> (r: Result<OracleSetPreclaimFacts, Ter>)
    ensures
        match oracle_fault(preflight, account, oracle) {
            Some(ter) => r matches Err(error) && error == ter,
            None => r matches Ok(facts) && {
                &&& facts.account_exists
                &&& facts.tx_series@ == tx.series@
                &&& account == Read::Found(facts.reserve)
                &&& facts.close_time_secs == close_time
                &&& facts.last_update_time_secs == tx.last_update_time
                &&& facts.tx_provider_present == tx.provider is Some
                &&& facts.tx_asset_class_present == tx.asset_class is Some
                &&& facts.oracle_exists == (oracle is Found)
                &&& match oracle {
                    OracleRead::Found(entry) => {
                        &&& facts.tx_provider_matches_existing == agrees(tx.provider, entry.provider@)
                        &&& facts.tx_asset_class_matches_existing == agrees(
                            tx.asset_class,
                            entry.asset_class@,
                        )
                        &&& facts.previous_last_update_time_secs == entry.last_update_time
                        &&& facts.existing_pairs@ == entry.pairs@
                    },
                    _ => {
                        &&& !facts.tx_provider_matches_existing
                        &&& !facts.tx_asset_class_matches_existing
                        &&& facts.previous_last_update_time_secs == 0
                        &&& facts.existing_pairs@.len() == 0
                    },
                }
            },
        },
{
    if !is_tes_success(preflight) {
        return Err(preflight);
    }
    let reserve = match account {
        Read::Missing => {
            return Err(Ter::TER_NO_ACCOUNT);
        },
        Read::Failed => {
            return Err(Ter::TEF_BAD_LEDGER);
        },
        Read::Found(reserve) => reserve,
    };
    match oracle {
        OracleRead::Failed => Err(Ter::TEF_BAD_LEDGER),
        OracleRead::Found(entry) => {
            let provider_matches = check_agrees(&tx.provider, &entry.provider);
            let class_matches = check_agrees(&tx.asset_class, &entry.asset_class);
            Ok(
                OracleSetPreclaimFacts {
                    account_exists: true,
                    close_time_secs: close_time as u64,
                    last_update_time_secs: tx.last_update_time as u64,
                    oracle_exists: true,
                    tx_provider_present: tx.provider.is_some(),
                    tx_asset_class_present: tx.asset_class.is_some(),
                    tx_provider_matches_existing: provider_matches,
                    tx_asset_class_matches_existing: class_matches,
                    previous_last_update_time_secs: entry.last_update_time as u64,
                    tx_series: tx.series,
                    existing_pairs: entry.pairs,
                    reserve,
                },
            )
        },
        OracleRead::Missing => Ok(
            OracleSetPreclaimFacts {
                account_exists: true,
                close_time_secs: close_time as u64,
                last_update_time_secs: tx.last_update_time as u64,
                oracle_exists: false,
                tx_provider_present: tx.provider.is_some(),
                tx_asset_class_present: tx.asset_class.is_some(),
                tx_provider_matches_existing: false,
                tx_asset_class_matches_existing: false,
                previous_last_update_time_secs: 0,
                tx_series: tx.series,
                existing_pairs: Vec::new(),
                reserve,
            },
        ),
    }
}

} // verus!
