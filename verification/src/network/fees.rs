//! Telling clients when fees change.
use vstd::prelude::*;
use crate::consensus::mode::OperatingMode;

verus! {

/// What fees depend on at the moment.
#[derive(Clone, Copy, Debug, PartialEq, Eq, Structural)]
pub struct ServerFeeSummary {
    pub load_factor_server: u32,
    pub load_base_server: u32,
    pub base_fee: u64,
    pub min_processing_fee_level: u64,
    pub open_ledger_fee_level: u64,
    pub reference_fee_level: u64,
}

/// A product divided, as far as it fits.
pub open spec fn spec_mul_div(value: u64, mul: u64, div: u64) -> Option<u64> {
    let quotient = (value * mul) / (div as int);
    if quotient > u64::MAX {
        None
    } else {
        Some(quotient as u64)
    }
}

/// A product divided, without losing anything in between; nothing where the result does not fit.
pub fn mul_div(value: u64, mul: u64, div: u64) -> (r: Option<u64>)
    requires
        div > 0,
    ensures
        r == spec_mul_div(value, mul, div),
{
    proof {
        assert(value * mul <= 0xffff_ffff_ffff_ffff * 0xffff_ffff_ffff_ffff) by (nonlinear_arith)
            requires
                0 <= value <= 0xffff_ffff_ffff_ffff,
                0 <= mul <= 0xffff_ffff_ffff_ffff,
        ;
        assert(value * mul >= 0) by (nonlinear_arith);
    }
    let quotient: u128 = (value as u128 * mul as u128) / div as u128;
    if quotient > u64::MAX as u128 {
        None
    } else {
        Some(quotient as u64)
    }
}

impl ServerFeeSummary {
    /// How much more the open ledger asks for than the reference, on the scale of the load.
    pub open spec fn escalation(self) -> u64 {
        match spec_mul_div(
            self.open_ledger_fee_level,
            self.load_base_server as u64,
            self.reference_fee_level,
        ) {
            Some(fee) => fee,
            None => u64::MAX,
        }
    }

    pub open spec fn spec_load_factor(self) -> u64 {
        if self.load_factor_server > self.escalation() {
            self.load_factor_server as u64
        } else {
            self.escalation()
        }
    }

    /// By how much fees are raised: by the load of the server or by the open ledger, whichever is
    /// more.
    pub fn load_factor(self) -> (r: u64)
        requires
            self.reference_fee_level > 0,
        ensures
            r == self.spec_load_factor(),
    {
        let escalation: u64 = match mul_div(
            self.open_ledger_fee_level,
            self.load_base_server as u64,
            self.reference_fee_level,
        ) {
            Some(fee) => fee,
            None => u64::MAX,
        };
        let load: u64 = self.load_factor_server as u64;
        if load > escalation {
            load
        } else {
            escalation
        }
    }
}

/// What clients are told when fees change.
#[derive(Clone, Copy, Debug, PartialEq, Eq, Structural)]
pub struct FeeChangePayload {
    pub server_status: OperatingMode,
    pub load_base: u64,
    pub load_factor_server: u64,
    pub load_factor: u64,
    pub load_factor_fee_escalation: u64,
    pub load_factor_fee_queue: u64,
    pub load_factor_fee_reference: u64,
    pub base_fee: u64,
}

pub open spec fn spec_payload(summary: ServerFeeSummary, mode: OperatingMode) -> FeeChangePayload {
    FeeChangePayload {
        server_status: mode,
        load_base: summary.load_base_server as u64,
        load_factor_server: summary.load_factor_server as u64,
        load_factor: summary.spec_load_factor(),
        load_factor_fee_escalation: summary.open_ledger_fee_level,
        load_factor_fee_queue: summary.min_processing_fee_level,
        load_factor_fee_reference: summary.reference_fee_level,
        base_fee: summary.base_fee,
    }
}

/// What clients are told when fees change.
pub fn fee_change_payload(summary: ServerFeeSummary, mode: OperatingMode) -> (r: FeeChangePayload)
    requires
        summary.reference_fee_level > 0,
    ensures
        r == spec_payload(summary, mode),
{
    FeeChangePayload {
        server_status: mode,
        load_base: summary.load_base_server as u64,
        load_factor_server: summary.load_factor_server as u64,
        load_factor: summary.load_factor(),
        load_factor_fee_escalation: summary.open_ledger_fee_level,
        load_factor_fee_queue: summary.min_processing_fee_level,
        load_factor_fee_reference: summary.reference_fee_level,
        base_fee: summary.base_fee,
    }
}

/// Who tells clients when fees change, and what it told them last.
#[derive(Clone, Copy, Debug, PartialEq, Eq, Structural)]
pub struct FeeChangeReporter {
    pub last_summary: Option<ServerFeeSummary>,
}

impl FeeChangeReporter {
    /// Nothing has been told yet.
    pub fn new() -> (r: FeeChangeReporter)
        ensures
            r.last_summary is None,
    {
        FeeChangeReporter { last_summary: None }
    }

    pub open spec fn spec_due(self, has_publisher: bool, summary: ServerFeeSummary) -> bool {
        has_publisher && self.last_summary != Some(summary)
    }

    /// Whether there is something to tell, and somebody who tells it.
    pub fn due(&self, has_publisher: bool, summary: ServerFeeSummary) -> (r: bool)
        ensures
            r == self.spec_due(has_publisher, summary),
    {
        if !has_publisher {
            return false;
        }
        match self.last_summary {
            Some(last) => last != summary,
            None => true,
        }
    }

    /// Tells clients, if there is something to tell. `scheduled` says whether the message could be
    /// handed on, and counts only where there is; what could not be is told the next time.
    pub fn report_fee_change(
        &mut self,
        has_publisher: bool,
        summary: ServerFeeSummary,
        scheduled: bool,
    ) -> (r: bool)
        ensures
            r == (old(self).spec_due(has_publisher, summary) && scheduled),
            final(self).last_summary == (if r {
                Some(summary)
            } else {
                old(self).last_summary
            }),
    {
        if !self.due(has_publisher, summary) {
            return false;
        }
        if scheduled {
            self.last_summary = Some(summary);
        }
        scheduled
    }
}

/// The same fees are not told twice in a row.
pub proof fn same_fees_are_told_once(before: FeeChangeReporter, summary: ServerFeeSummary, has_publisher: bool)
    requires
        before.last_summary == Some(summary),
    ensures
        !before.spec_due(has_publisher, summary),
{
}

/// Fees are never lowered below the load of the server.
pub proof fn load_factor_covers_the_server(summary: ServerFeeSummary)
    ensures
        summary.spec_load_factor() >= summary.load_factor_server,
        summary.spec_load_factor() >= summary.escalation(),
{
}

} // verus!
