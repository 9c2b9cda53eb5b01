//! Offers as others see them.
use vstd::prelude::*;
use crate::ids::ViewError;
use crate::ter::Ter;

verus! {

/// What is found of a new offer by its place in the ledger. Those who look at offers always know
/// them; if they do not, something is wrong here.
pub fn preclaim_offer_create(found: Option<Ter>) -> (r: Ter)
    ensures
        r == (match found {
            Some(ter) => ter,
            None => Ter::TEF_INTERNAL,
        }),
{
    match found {
        Some(ter) => ter,
        None => Ter::TEF_INTERNAL,
    }
}

/// What the removal of an offer comes to.
pub fn offer_delete_pub(removed: Result<Ter, ViewError>) -> (r: Ter)
    ensures
        r == (match removed {
            Ok(ter) => ter,
            Err(_) => Ter::TEF_BAD_LEDGER,
        }),
{
    match removed {
        Ok(ter) => ter,
        Err(_) => Ter::TEF_BAD_LEDGER,
    }
}

} // verus!
