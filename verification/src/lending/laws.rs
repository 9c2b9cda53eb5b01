//! What holds of every payment on a loan, over what was there before and what is there after.
use vstd::prelude::*;
use crate::amount::Asset;
use crate::lending::calls::{LoanCall, PeriodQuery, Rounding};
use crate::lending::loan_pay::{LoanFacts, LoanParties, LoanPayRun, LoanPayment, spec_issuer_send};
use crate::lending::parts::{LoanPayPaymentType, PaymentParts};
use crate::lending::schedule::LoanSchedule;
use crate::lending::views::{LpBrokerView, LpVaultView, floor_zero};
use crate::submit::flags::Read;
use crate::ter::Ter;

verus! {

/// What is asked for in two goes is all that was asked for in either of them.
proof fn asked_in_either<A>(first: Seq<A>, second: Seq<A>, call: A)
    ensures
        (first + second).contains(call) <==> first.contains(call) || second.contains(call),
{
    let both = first + second;
    if first.contains(call) {
        let i = choose|i: int| 0 <= i < first.len() && first[i] == call;
        assert(both[i] == call);
    }
    if second.contains(call) {
        let i = choose|i: int| 0 <= i < second.len() && second[i] == call;
        assert(both[first.len() + i] == call);
    }
    if both.contains(call) {
        let i = choose|i: int| 0 <= i < both.len() && both[i] == call;
        if i < first.len() {
            assert(first[i] == call);
        } else {
            assert(second[i - first.len()] == call);
        }
    }
}

/// What a payment that went through was made of.
proof fn payment_was_made_of(run: LoanPayRun, payment: LoanPayment) -> (r: (LoanParties, PaymentParts))
    requires
        run.outcome().payment == Some(payment),
    ensures
        run.spec_parties() == Ok::<LoanParties, Ter>(r.0),
        run.spec_divided(r.0).result == Ok::<PaymentParts, Ter>(r.1),
        run.transfer_answers.total_paid > 0,
        run.spec_fee_route(r.0.broker) matches Ok(to_owner) && payment == run.payment_of(
            r.0,
            r.1,
            to_owner,
        ),
        run.vault_fault(r.0.vault, r.1) is None,
        run.issuer_fault(r.0.asset, r.1) is None,
        run.write_fault() is None,
{
    let parties = run.spec_parties()->Ok_0;
    (parties, run.spec_divided(parties).result->Ok_0)
}

/// Whatever was asked for on one stretch of a payment that went through is among all that was asked
/// for.
proof fn every_stretch_counts(
    run: LoanPayRun,
    payment: LoanPayment,
    parties: LoanParties,
    parts: PaymentParts,
    call: LoanCall,
)
    requires
        run.outcome().payment == Some(payment),
        run.spec_parties() == Ok::<LoanParties, Ter>(parties),
        run.spec_divided(parties).result == Ok::<PaymentParts, Ter>(parts),
    ensures
        run.party_calls().contains(call) ==> run.calls().contains(call),
        run.offered_calls(parties).contains(call) ==> run.calls().contains(call),
        run.spec_divided(parties).calls.contains(call) ==> run.calls().contains(call),
        run.total_calls(parts).contains(call) ==> run.calls().contains(call),
        run.route_calls(parties).contains(call) ==> run.calls().contains(call),
        run.vault_calls(parties, parts).contains(call) ==> run.calls().contains(call),
        run.spec_fee_route(parties.broker) matches Ok(to_owner) ==> (run.broker_calls(
            parties.broker,
            parts,
            to_owner,
        ).contains(call) ==> run.calls().contains(call)) && (run.write_calls(
            parties,
            parts,
            payment,
        ).contains(call) ==> run.calls().contains(call)),
{
    let to_owner = run.spec_fee_route(parties.broker)->Ok_0;
    let broker = run.broker_calls(parties.broker, parts, to_owner);
    let issuer = run.issuer_calls(parties.asset, parts);
    let write = run.write_calls(parties, parts, payment);
    let vault = run.vault_calls(parties, parts);
    let route = run.route_calls(parties);
    let total = run.total_calls(parts);
    let paying = run.payment_calls(parties, parts);
    assert(paying == route + (vault + (broker + issuer + write)));
    let parted = run.spec_divided(parties).calls;
    let offered = run.offered_calls(parties);
    let first = run.party_calls();
    assert(run.calls() == first + (offered + parted + (total + paying)));
    asked_in_either(broker, issuer, call);
    asked_in_either(broker + issuer, write, call);
    asked_in_either(vault, broker + issuer + write, call);
    asked_in_either(route, vault + (broker + issuer + write), call);
    asked_in_either(total, paying, call);
    asked_in_either(offered, parted, call);
    asked_in_either(offered + parted, total + paying, call);
    asked_in_either(first, offered + parted + (total + paying), call);
}

/// A late payment is one instalment: where payments remain, there is one fewer afterwards, the one
/// that was due is the previous one, and the next is due one interval later, as far as dates go.
/// With the last one nothing is due any more.
pub proof fn late_payment_is_one_instalment(run: LoanPayRun, payment: LoanPayment, before: LoanSchedule)
    requires
        run.payment_type == LoanPayPaymentType::Late,
        run.outcome().payment == Some(payment),
        run.loan_now == Read::Found(Some(before)),
        before.payments_remaining > 0,
    ensures
        payment.loan.schedule matches Some(after) && {
            &&& after.payments_remaining == before.payments_remaining - 1
            &&& after.payment_interval == before.payment_interval
            &&& after.previous_due_date == before.next_due_date
            &&& before.payments_remaining > 1 && before.next_due_date + before.payment_interval
                <= u32::MAX ==> after.next_due_date == before.next_due_date
                + before.payment_interval
            &&& before.payments_remaining > 1 && before.next_due_date + before.payment_interval
                > u32::MAX ==> after.next_due_date == u32::MAX
            &&& before.payments_remaining == 1 ==> after.next_due_date == 0
        },
{
    reveal(LoanPayRun::spec_divided);
    assert(before.payment_interval * 0 == 0) by (nonlinear_arith);
    assert(before.payment_interval * 1 == before.payment_interval) by (nonlinear_arith);
}

/// A regular payment is as many instalments as it was divided among, and one of more than is due is
/// at least one: so many fewer remain, no more than there were nor than one transaction may pay,
/// and as many intervals pass for both dates.
pub proof fn payment_is_so_many_instalments(run: LoanPayRun, payment: LoanPayment, before: LoanSchedule)
    requires
        run.payment_type == LoanPayPaymentType::Regular || run.payment_type
            == LoanPayPaymentType::Overpayment,
        run.outcome().payment == Some(payment),
        run.loan_now == Read::Found(Some(before)),
    ensures
        payment.loan.schedule matches Some(after) && {
            let covered: int = if run.regular_payment <= 0 {
                1
            } else if run.payment_type == LoanPayPaymentType::Overpayment
                && run.parts.scheduled.periods == 0 {
                1
            } else {
                run.parts.scheduled.periods as int
            };
            let done = before.payments_remaining - after.payments_remaining;
            &&& 0 <= done <= before.payments_remaining
            &&& done <= covered
            &&& done <= 100
            &&& done == covered || done == before.payments_remaining || done == 100
            &&& after.payment_interval == before.payment_interval
            &&& after.payments_remaining == 0 ==> after.next_due_date == 0
                && after.previous_due_date == before.next_due_date
            &&& after.payments_remaining > 0 && done == 0 ==> after == before
            &&& after.payments_remaining > 0 && done > 0 && before.next_due_date
                + before.payment_interval * done <= u32::MAX ==> after.next_due_date
                == before.next_due_date + before.payment_interval * done
                && after.previous_due_date == after.next_due_date - before.payment_interval
        },
{
    reveal(LoanPayRun::spec_divided);
    let after = payment.loan.schedule->Some_0;
    let done = before.payments_remaining - after.payments_remaining;
    let interval = before.payment_interval as int;
    assert(interval * done == interval * (done - 1) + interval) by (nonlinear_arith);
    if done > 0 {
        assert(interval * (done - 1) >= 0) by (nonlinear_arith)
            requires
                interval >= 0,
                done >= 1,
        ;
    }
}

/// A payment in full ends the schedule: what was due next is the last that was due.
pub proof fn full_payment_ends_the_schedule(run: LoanPayRun, payment: LoanPayment, before: LoanSchedule)
    requires
        run.payment_type == LoanPayPaymentType::Full,
        run.outcome().payment == Some(payment),
        run.loan_now == Read::Found(Some(before)),
    ensures
        payment.loan.schedule == Some(
            LoanSchedule {
                payments_remaining: 0,
                previous_due_date: before.next_due_date,
                next_due_date: 0,
                payment_interval: before.payment_interval,
            },
        ),
{
}

/// A loan without a schedule gets none.
pub proof fn no_schedule_comes_from_nowhere(run: LoanPayRun, payment: LoanPayment)
    requires
        run.outcome().payment == Some(payment),
    ensures
        payment.loan.schedule is Some <==> (run.loan_now matches Read::Found(schedule)
            && schedule is Some),
{
}

/// A payment starts from what was read: the loan, its broker and the vault, and of an impaired loan
/// from what was read of loan and vault once it had been taken out of its impairment.
pub proof fn payment_starts_from_what_was_read(
    run: LoanPayRun,
    loan: LoanFacts,
    broker: LpBrokerView,
    vault: LpVaultView,
)
    requires
        run.loan == Read::Found(loan),
        run.broker == Read::Found(broker),
        run.vault == Read::Found(vault),
    ensures
        run.spec_parties() matches Ok(parties) ==> {
            &&& run.lending_enabled && run.dependencies_enabled
            &&& run.preflight.success()
            &&& run.amount > 0
            &&& run.payment_type == LoanPayPaymentType::Overpayment
                ==> loan.terms.overpayment_allowed
            &&& parties.broker == broker
            &&& parties.broker_id == loan.broker_id
            &&& parties.asset == vault.asset
            &&& !loan.impaired ==> parties.loan == loan && parties.vault == vault
            &&& loan.impaired ==> run.unimpair.success() && run.loan_again == Read::Found(
                parties.loan,
            ) && run.vault_again == Read::Found(parties.vault)
        },
{
}

/// What stops a payment before it starts, in the order in which it is looked at; where nothing
/// does, it starts.
pub proof fn payment_is_stopped_for_a_reason(run: LoanPayRun)
    ensures
        !run.lending_enabled || !run.dependencies_enabled ==> run.outcome().result
            == Ter::TEM_DISABLED,
        run.lending_enabled && run.dependencies_enabled && !run.preflight.success()
            ==> run.outcome().result == run.preflight,
        run.lending_enabled && run.dependencies_enabled && run.preflight.success() ==> {
            &&& !(run.loan is Found) ==> run.outcome().result == Ter::TEC_NO_ENTRY
            &&& run.loan matches Read::Found(loan) ==> {
                let barred = run.payment_type == LoanPayPaymentType::Overpayment
                    && !loan.terms.overpayment_allowed;
                &&& barred && run.fix_cleanup_3_1_3 ==> run.outcome().result
                    == Ter::TEC_NO_PERMISSION
                &&& barred && !run.fix_cleanup_3_1_3 ==> run.outcome().result
                    == Ter::TEM_INVALID_FLAG
                &&& !barred && (!(run.broker is Found) || !(run.vault is Found))
                    ==> run.outcome().result == Ter::TEF_BAD_LEDGER
                &&& !barred && run.broker is Found && run.vault is Found && run.amount <= 0
                    ==> run.outcome().result == Ter::TEM_BAD_AMOUNT
                &&& !barred && run.broker is Found && run.vault is Found && run.amount > 0
                    && loan.impaired && !run.unimpair.success() ==> run.outcome().result
                    == run.unimpair
                &&& !barred && run.broker is Found && run.vault is Found && run.amount > 0
                    && loan.impaired && run.unimpair.success() && (!(run.loan_again is Found)
                    || !(run.vault_again is Found)) ==> run.outcome().result
                    == Ter::TEF_BAD_LEDGER
                &&& !barred && run.broker is Found && run.vault is Found && run.amount > 0
                    && !loan.impaired ==> run.spec_parties() is Ok
            }
        },
{
}

/// Too little, too soon, too late: a regular payment must reach one instalment, a late one what is
/// due by then and not before the due date has passed, and one in full all that is due while more
/// than one payment remains. Whatever is paid at all is more than nothing.
pub proof fn payment_must_be_enough(run: LoanPayRun, parties: LoanParties)
    requires
        run.spec_parties() == Ok::<LoanParties, Ter>(parties),
    ensures
        run.payment_type == LoanPayPaymentType::Regular && run.regular_payment > 0 && run.amount
            < run.regular_payment ==> run.outcome().result == Ter::TEC_INSUFFICIENT_PAYMENT,
        run.payment_type == LoanPayPaymentType::Late && !run.parts.late.expired
            ==> run.outcome().result == Ter::TEC_TOO_SOON,
        run.payment_type == LoanPayPaymentType::Late && run.parts.late.expired && run.amount
            < run.parts.late.total_due ==> run.outcome().result == Ter::TEC_INSUFFICIENT_PAYMENT,
        run.payment_type == LoanPayPaymentType::Full && parties.loan.terms.payments_remaining <= 1
            ==> run.outcome().result == Ter::TEC_KILLED,
        run.payment_type == LoanPayPaymentType::Full && parties.loan.terms.payments_remaining > 1
            && run.amount < run.parts.full.due ==> run.outcome().result
            == Ter::TEC_INSUFFICIENT_PAYMENT,
        run.transfer_answers.total_paid <= 0 ==> run.outcome().payment is None,
        run.outcome().payment is Some ==> match run.payment_type {
            LoanPayPaymentType::Regular => run.regular_payment <= 0 || run.amount
                >= run.regular_payment,
            LoanPayPaymentType::Late => run.parts.late.expired && run.amount
                >= run.parts.late.total_due,
            LoanPayPaymentType::Full => parties.loan.terms.payments_remaining > 1 && run.amount
                >= run.parts.full.due,
            LoanPayPaymentType::Overpayment => parties.loan.terms.overpayment_allowed
                || parties.loan != run.loan->Found_0,
        },
        run.payment_type == LoanPayPaymentType::Regular && (run.regular_payment <= 0 || run.amount
            >= run.regular_payment) ==> run.spec_divided(parties).result is Ok,
        run.payment_type == LoanPayPaymentType::Late && run.parts.late.expired && run.amount
            >= run.parts.late.total_due ==> run.spec_divided(parties).result is Ok,
        run.payment_type == LoanPayPaymentType::Full && parties.loan.terms.payments_remaining > 1
            && run.amount >= run.parts.full.due ==> run.spec_divided(parties).result is Ok,
        run.payment_type == LoanPayPaymentType::Overpayment ==> run.spec_divided(parties).result
            is Ok,
{
    reveal(LoanPayRun::spec_divided);
}

/// What the broker gets is the fee of the payment, by the way in which it is paid: the scheduled
/// fee, what a late payment costs, the fee for closing, or the scheduled fee with that on what is
/// put into the loan on top. What the vault gets is what came out rounded down.
pub proof fn shares_of_a_payment(run: LoanPayRun, payment: LoanPayment, parties: LoanParties)
    requires
        run.outcome().payment == Some(payment),
        run.spec_parties() == Ok::<LoanParties, Ter>(parties),
    ensures
        payment.to_vault == run.transfer_answers.rounded_to_vault,
        run.payment_type == LoanPayPaymentType::Late ==> payment.to_broker == run.parts.late.fee,
        run.payment_type == LoanPayPaymentType::Full ==> payment.to_broker == run.parts.full.fee,
        run.payment_type == LoanPayPaymentType::Regular && run.regular_payment > 0
            ==> payment.to_broker == run.parts.scheduled.fee,
        run.regular_payment <= 0 && (run.payment_type == LoanPayPaymentType::Regular
            || run.payment_type == LoanPayPaymentType::Overpayment) ==> payment.to_broker == 0,
        run.payment_type == LoanPayPaymentType::Overpayment && run.regular_payment > 0 ==> {
            let more = parties.loan.terms.overpayment_allowed && run.parts.scheduled.periods
                < parties.loan.terms.payments_remaining && run.parts.scheduled.periods < 100
                && run.parts.over.scheduled_total < run.effective && run.parts.over.extra is Some;
            payment.to_broker == if more {
                run.parts.over.fee
            } else {
                run.parts.scheduled.fee
            }
        },
{
    reveal(LoanPayRun::spec_divided);
}

/// What the vault gets is principal and interest, and what is taken off the loan is principal,
/// interest and the fee for managing it, less what the loan gains in value: the questions name just
/// these, by the way in which it is paid.
pub proof fn parts_of_a_payment_are_named(
    run: LoanPayRun,
    payment: LoanPayment,
    parties: LoanParties,
    principal: i128,
    interest: i128,
    management_fee: i128,
    value_change: i128,
)
    requires
        run.outcome().payment == Some(payment),
        run.spec_parties() == Ok::<LoanParties, Ter>(parties),
        match run.payment_type {
            LoanPayPaymentType::Late => principal == run.parts.scheduled.principal && interest
                == run.parts.late.interest_paid && management_fee
                == run.parts.scheduled.management_fee && value_change
                == run.parts.late.net_interest,
            LoanPayPaymentType::Full => principal == parties.loan.terms.principal_outstanding
                && interest == run.parts.full.interest && management_fee
                == parties.loan.terms.management_fee_outstanding && value_change
                == run.parts.full.value_change,
            LoanPayPaymentType::Regular => run.regular_payment > 0 && principal
                == run.parts.scheduled.principal && interest == run.parts.scheduled.interest
                && management_fee == run.parts.scheduled.management_fee && value_change
                == run.parts.scheduled.value_change,
            LoanPayPaymentType::Overpayment => run.regular_payment > 0
                && run.parts.over.extra is None && principal == run.parts.scheduled.principal
                && interest == run.parts.scheduled.interest && management_fee
                == run.parts.scheduled.management_fee && value_change
                == run.parts.scheduled.value_change,
        },
    ensures
        run.calls().contains(LoanCall::Sum { first: principal, second: interest }),
        run.calls().contains(
            LoanCall::Sum { first: run.transfer_answers.to_vault, second: payment.to_broker },
        ),
        run.calls().contains(
            LoanCall::Difference {
                from: parties.loan.terms.principal_outstanding,
                first: principal,
            },
        ),
        run.calls().contains(
            LoanCall::Difference {
                from: parties.loan.terms.management_fee_outstanding,
                first: management_fee,
            },
        ),
        run.calls().contains(
            LoanCall::SumOfThree { first: principal, second: interest, third: management_fee },
        ),
        run.calls().contains(
            LoanCall::Difference { from: run.transfer_answers.tracked_paid, first: value_change },
        ),
        run.calls().contains(
            LoanCall::Difference {
                from: parties.loan.terms.total_value_outstanding,
                first: run.transfer_answers.value_paid,
            },
        ),
        run.calls().contains(
            LoanCall::Difference { from: run.transfer_answers.to_vault, first: value_change },
        ),
        value_change != 0 ==> run.calls().contains(
            LoanCall::Sum { first: parties.vault.assets_total, second: value_change },
        ) && payment.vault.assets_total == run.transfer_answers.total_after,
        value_change == 0 ==> payment.vault.assets_total == parties.vault.assets_total,
{
    let made = payment_was_made_of(run, payment);
    let parts = made.1;
    assert(parts.principal == principal && parts.interest == interest && parts.management_fee
        == management_fee && parts.value_change == value_change) by {
        reveal(LoanPayRun::spec_divided);
    }
    named_in_the_questions(run, payment, parties, parts);
}

proof fn named_in_the_questions(
    run: LoanPayRun,
    payment: LoanPayment,
    parties: LoanParties,
    parts: PaymentParts,
)
    requires
        run.outcome().payment == Some(payment),
        run.spec_parties() == Ok::<LoanParties, Ter>(parties),
        run.spec_divided(parties).result == Ok::<PaymentParts, Ter>(parts),
    ensures
        run.calls().contains(LoanCall::Sum { first: parts.principal, second: parts.interest }),
        run.calls().contains(
            LoanCall::Sum { first: run.transfer_answers.to_vault, second: payment.to_broker },
        ),
        run.calls().contains(
            LoanCall::Difference {
                from: parties.loan.terms.principal_outstanding,
                first: parts.principal,
            },
        ),
        run.calls().contains(
            LoanCall::Difference {
                from: parties.loan.terms.management_fee_outstanding,
                first: parts.management_fee,
            },
        ),
        run.calls().contains(
            LoanCall::SumOfThree {
                first: parts.principal,
                second: parts.interest,
                third: parts.management_fee,
            },
        ),
        run.calls().contains(
            LoanCall::Difference {
                from: run.transfer_answers.tracked_paid,
                first: parts.value_change,
            },
        ),
        run.calls().contains(
            LoanCall::Difference {
                from: parties.loan.terms.total_value_outstanding,
                first: run.transfer_answers.value_paid,
            },
        ),
        run.calls().contains(
            LoanCall::Difference { from: run.transfer_answers.to_vault, first: parts.value_change },
        ),
        parts.value_change != 0 ==> run.calls().contains(
            LoanCall::Sum { first: parties.vault.assets_total, second: parts.value_change },
        ),
{
    let t = run.transfer_answers;
    let terms = parties.loan.terms;
    let to_owner = run.spec_fee_route(parties.broker)->Ok_0;
    let total = run.total_calls(parts);
    let vault = run.vault_calls(parties, parts);
    let broker = run.broker_calls(parties.broker, parts, to_owner);
    let loan = run.loan_calls(parties, parts);
    let write = run.write_calls(parties, parts, payment);
    assert forall|call: LoanCall| #[trigger] loan.contains(call) implies write.contains(call) by {
        reveal(LoanPayRun::write_calls);
        let i = choose|i: int| 0 <= i < loan.len() && loan[i] == call;
        assert(write[4 + i] == call);
    }
    let to_vault = LoanCall::Sum { first: parts.principal, second: parts.interest };
    assert(total[0] == to_vault);
    every_stretch_counts(run, payment, parties, parts, to_vault);
    let in_all = LoanCall::Sum { first: t.to_vault, second: parts.fee };
    assert(total[1] == in_all);
    every_stretch_counts(run, payment, parties, parts, in_all);
    let principal = LoanCall::Difference {
        from: terms.principal_outstanding,
        first: parts.principal,
    };
    let fee = LoanCall::Difference {
        from: terms.management_fee_outstanding,
        first: parts.management_fee,
    };
    let whole = LoanCall::SumOfThree {
        first: parts.principal,
        second: parts.interest,
        third: parts.management_fee,
    };
    let value = LoanCall::Difference { from: t.tracked_paid, first: parts.value_change };
    let left = LoanCall::Difference { from: terms.total_value_outstanding, first: t.value_paid };
    assert(loan[0] == principal && loan[1] == fee && loan[2] == whole && loan[3] == value
        && loan[4] == left) by {
        reveal(LoanPayRun::loan_calls);
    }
    assert(loan.len() == 6) by {
        reveal(LoanPayRun::loan_calls);
    }
    assert(loan.contains(principal) && loan.contains(fee) && loan.contains(whole)
        && loan.contains(value) && loan.contains(left));
    every_stretch_counts(run, payment, parties, parts, principal);
    every_stretch_counts(run, payment, parties, parts, fee);
    every_stretch_counts(run, payment, parties, parts, whole);
    every_stretch_counts(run, payment, parties, parts, value);
    every_stretch_counts(run, payment, parties, parts, left);
    let debt = LoanCall::Difference { from: t.to_vault, first: parts.value_change };
    assert(broker[0] == debt && broker.len() > 0) by {
        reveal(LoanPayRun::broker_calls);
    }
    assert(broker.contains(debt));
    every_stretch_counts(run, payment, parties, parts, debt);
    if parts.value_change != 0 {
        let total_assets = LoanCall::Sum {
            first: parties.vault.assets_total,
            second: parts.value_change,
        };
        assert(vault[2] == total_assets && vault.len() > 2) by {
            reveal(LoanPayRun::vault_calls);
        }
        assert(vault.contains(total_assets));
        every_stretch_counts(run, payment, parties, parts, total_assets);
    }
}

/// What is reported is what is done: the money goes from the borrower to the vault and to whoever
/// gets the fee, and loan, vault and broker are written as they are reported.
pub proof fn reported_payment_is_carried_out(run: LoanPayRun, payment: LoanPayment, parties: LoanParties)
    requires
        run.outcome().payment == Some(payment),
        run.spec_parties() == Ok::<LoanParties, Ter>(parties),
    ensures
        run.outcome().result == Ter::TES_SUCCESS,
        run.calls().contains(
            LoanCall::Send {
                borrower: run.borrower,
                asset: parties.asset,
                vault_account: parties.vault.pseudo,
                to_vault: payment.to_vault,
                payee: payment.broker_payee,
                to_broker: payment.to_broker,
            },
        ),
        run.calls().contains(
            LoanCall::UpdateLoan { id: run.loan_id, asset: parties.asset, loan: payment.loan },
        ),
        run.calls().contains(
            LoanCall::UpdateVault {
                id: parties.broker.vault_id,
                asset: parties.asset,
                vault: payment.vault,
            },
        ),
        run.calls().contains(
            LoanCall::UpdateBroker {
                id: parties.broker_id,
                asset: parties.asset,
                broker: payment.broker,
            },
        ),
        run.transfer.success(),
        run.loan_updated && run.vault_updated && run.broker_updated,
{
    let made = payment_was_made_of(run, payment);
    let parts = made.1;
    let write = run.write_calls(parties, parts, payment);
    let loan = run.loan_calls(parties, parts);
    let send = LoanCall::Send {
        borrower: run.borrower,
        asset: parties.asset,
        vault_account: parties.vault.pseudo,
        to_vault: payment.to_vault,
        payee: payment.broker_payee,
        to_broker: payment.to_broker,
    };
    let update_loan = LoanCall::UpdateLoan {
        id: run.loan_id,
        asset: parties.asset,
        loan: payment.loan,
    };
    let update_vault = LoanCall::UpdateVault {
        id: parties.broker.vault_id,
        asset: parties.asset,
        vault: payment.vault,
    };
    let update_broker = LoanCall::UpdateBroker {
        id: parties.broker_id,
        asset: parties.asset,
        broker: payment.broker,
    };
    assert(loan.len() == 6 && loan[5] == update_loan) by {
        reveal(LoanPayRun::loan_calls);
    }
    assert(write.len() == 14 && write[2] == send && write[9] == update_loan && write[11]
        == update_vault && write[13] == update_broker) by {
        reveal(LoanPayRun::write_calls);
    }
    assert(write.contains(send) && write.contains(update_loan) && write.contains(update_vault)
        && write.contains(update_broker));
    every_stretch_counts(run, payment, parties, parts, send);
    every_stretch_counts(run, payment, parties, parts, update_loan);
    every_stretch_counts(run, payment, parties, parts, update_vault);
    every_stretch_counts(run, payment, parties, parts, update_broker);
}

/// The fee goes to the owner of the broker exactly where the broker has the cover that it must
/// have, and its owner is neither deeply frozen nor still to be authorized; otherwise it stays with
/// the broker, and what there is of it becomes cover.
pub proof fn fee_goes_where_the_cover_allows(run: LoanPayRun, payment: LoanPayment, parties: LoanParties)
    requires
        run.outcome().payment == Some(payment),
        run.spec_parties() == Ok::<LoanParties, Ter>(parties),
    ensures
        ({
            let covered = parties.broker.cover_available >= run.transfer_answers.required_cover
                && run.owner_deep_frozen == Ok::<bool, Ter>(false)
                && run.owner_requires_strong_auth == Ok::<bool, Ter>(false);
            &&& covered ==> payment.broker_payee == parties.broker.owner
                && payment.broker.cover_available == parties.broker.cover_available
            &&& !covered ==> payment.broker_payee == parties.broker.pseudo
                && run.pseudo_account_check.success()
            &&& !covered && payment.to_broker > 0 ==> payment.broker.cover_available
                == run.transfer_answers.cover_after && run.calls().contains(
                LoanCall::Sum {
                    first: parties.broker.cover_available,
                    second: payment.to_broker,
                },
            )
            &&& !covered && payment.to_broker <= 0 ==> payment.broker.cover_available
                == parties.broker.cover_available
        }),
        payment.broker.owner == parties.broker.owner,
        payment.broker.pseudo == parties.broker.pseudo,
        payment.broker.vault_id == parties.broker.vault_id,
        run.calls().contains(
            LoanCall::MinimumCover {
                asset: parties.asset,
                debt_total: parties.broker.debt_total,
                rate: parties.broker.cover_rate_minimum,
                loan_scale: parties.loan.terms.scale,
                vault_scale: run.vault_scale,
                fix_cleanup_3_2_0: run.fix_cleanup_3_2_0,
            },
        ),
{
    let made = payment_was_made_of(run, payment);
    let parts = made.1;
    let to_owner = run.spec_fee_route(parties.broker)->Ok_0;
    let cover = LoanCall::Sum { first: parties.broker.cover_available, second: parts.fee };
    let broker = run.broker_calls(parties.broker, parts, to_owner);
    if !to_owner && parts.fee > 0 {
        assert(broker.len() == 3 && broker[2] == cover) by {
            reveal(LoanPayRun::broker_calls);
        }
        assert(broker.contains(cover));
        every_stretch_counts(run, payment, parties, parts, cover);
    }
    let minimum = LoanCall::MinimumCover {
        asset: parties.asset,
        debt_total: parties.broker.debt_total,
        rate: parties.broker.cover_rate_minimum,
        loan_scale: parties.loan.terms.scale,
        vault_scale: run.vault_scale,
        fix_cleanup_3_2_0: run.fix_cleanup_3_2_0,
    };
    let route = run.route_calls(parties);
    assert(route.len() > 0 && route[0] == minimum) by {
        reveal(LoanPayRun::route_calls);
    }
    assert(route.contains(minimum));
    every_stretch_counts(run, payment, parties, parts, minimum);
}

/// What is left after a payment is what the differences came to, and never below zero: of the loan,
/// of its value, of the fee for managing it, and of what is owed to the broker. The vault has what
/// it had, with what it got.
pub proof fn balances_are_what_was_worked_out(run: LoanPayRun, payment: LoanPayment, parties: LoanParties)
    requires
        run.outcome().payment == Some(payment),
        run.spec_parties() == Ok::<LoanParties, Ter>(parties),
    ensures
        payment.loan.principal_outstanding == run.transfer_answers.principal_after,
        run.transfer_answers.management_fee_after >= 0 ==> payment.loan.management_fee_outstanding
            == run.transfer_answers.management_fee_after,
        run.transfer_answers.management_fee_after < 0 ==> payment.loan.management_fee_outstanding
            == 0,
        run.transfer_answers.value_after >= 0 ==> payment.loan.total_value_outstanding
            == run.transfer_answers.value_after,
        run.transfer_answers.value_after < 0 ==> payment.loan.total_value_outstanding == 0,
        run.transfer_answers.debt_after >= 0 ==> payment.broker.debt_total
            == run.transfer_answers.debt_after,
        run.transfer_answers.debt_after < 0 ==> payment.broker.debt_total == 0,
        payment.vault.assets_available == run.transfer_answers.available_after,
        payment.vault.pseudo == parties.vault.pseudo,
        payment.vault.asset == parties.vault.asset,
        run.calls().contains(
            LoanCall::Sum {
                first: parties.vault.assets_available,
                second: run.transfer_answers.rounded_to_vault,
            },
        ),
        run.calls().contains(
            LoanCall::Round {
                asset: parties.asset,
                number: run.transfer_answers.to_vault,
                scale: run.vault_scale,
                mode: Rounding::Downward,
            },
        ),
        run.calls().contains(
            LoanCall::Sum {
                first: run.transfer_answers.rounded_to_vault,
                second: payment.to_broker,
            },
        ),
        run.calls().contains(
            LoanCall::Difference {
                from: parties.broker.debt_total,
                first: run.transfer_answers.debt_reduction,
            },
        ),
{
    let made = payment_was_made_of(run, payment);
    let parts = made.1;
    let t = run.transfer_answers;
    let to_owner = run.spec_fee_route(parties.broker)->Ok_0;
    let vault = run.vault_calls(parties, parts);
    let broker = run.broker_calls(parties.broker, parts, to_owner);
    let round = LoanCall::Round {
        asset: parties.asset,
        number: t.to_vault,
        scale: run.vault_scale,
        mode: Rounding::Downward,
    };
    let available = LoanCall::Sum {
        first: parties.vault.assets_available,
        second: t.rounded_to_vault,
    };
    let sent = LoanCall::Sum { first: t.rounded_to_vault, second: parts.fee };
    let debt = LoanCall::Difference { from: parties.broker.debt_total, first: t.debt_reduction };
    assert(vault.len() > 2 && vault[0] == round && vault[1] == available && vault.last() == sent)
        by {
        reveal(LoanPayRun::vault_calls);
    }
    assert(vault.contains(round) && vault.contains(available) && vault.contains(sent));
    assert(broker.len() > 1 && broker[1] == debt) by {
        reveal(LoanPayRun::broker_calls);
    }
    assert(broker.contains(debt));
    every_stretch_counts(run, payment, parties, parts, round);
    every_stretch_counts(run, payment, parties, parts, available);
    every_stretch_counts(run, payment, parties, parts, sent);
    every_stretch_counts(run, payment, parties, parts, debt);
}

/// What a late payment takes is worked out of the terms of the loan: the interest for being late on
/// what is still lent, from the due date to the close of the ledger, and on top of one instalment
/// the service fee, the fee for being late and that interest.
pub proof fn late_payment_is_worked_out(run: LoanPayRun, payment: LoanPayment, parties: LoanParties)
    requires
        run.payment_type == LoanPayPaymentType::Late,
        run.outcome().payment == Some(payment),
        run.spec_parties() == Ok::<LoanParties, Ter>(parties),
    ensures
        run.calls().contains(
            LoanCall::Expired { next_due: parties.loan.terms.next_payment_due_date },
        ),
        parties.loan.terms.next_payment_due_date matches Some(due_date) ==> run.calls().contains(
            LoanCall::LateInterest {
                principal: parties.loan.terms.principal_outstanding,
                rate: parties.loan.terms.late_interest_rate,
                close_time: run.close_time,
                due_date,
            },
        ),
        run.calls().contains(
            LoanCall::Round {
                asset: parties.asset,
                number: run.parts.late.raw_interest,
                scale: parties.loan.terms.scale,
                mode: Rounding::ToNearest,
            },
        ),
        run.calls().contains(
            LoanCall::PartInterest {
                asset: parties.asset,
                interest: run.parts.late.interest,
                management_fee_rate: parties.broker.management_fee_rate,
                scale: parties.loan.terms.scale,
            },
        ),
        run.calls().contains(
            LoanCall::SumOfFour {
                first: run.parts.scheduled.management_fee,
                second: parties.loan.terms.service_fee,
                third: parties.loan.terms.late_payment_fee,
                fourth: run.parts.late.management_fee,
            },
        ),
        run.calls().contains(
            LoanCall::SumOfFour {
                first: run.parts.late.tracked_due,
                second: parties.loan.terms.service_fee,
                third: parties.loan.terms.late_payment_fee,
                fourth: run.parts.late.interest,
            },
        ),
        run.calls().contains(
            LoanCall::Sum {
                first: run.parts.scheduled.interest,
                second: run.parts.late.net_interest,
            },
        ),
        run.calls().contains(
            LoanCall::SumOfThree {
                first: run.parts.scheduled.principal,
                second: run.parts.scheduled.interest,
                third: run.parts.scheduled.management_fee,
            },
        ),
        run.calls().contains(
            LoanCall::OnePayment(
                PeriodQuery {
                    asset: parties.asset,
                    scale: parties.loan.terms.scale,
                    total_value: parties.loan.terms.total_value_outstanding,
                    principal: parties.loan.terms.principal_outstanding,
                    management_fee: parties.loan.terms.management_fee_outstanding,
                    periodic_payment: parties.loan.terms.periodic_payment,
                    interest_rate: parties.loan.terms.interest_rate,
                    payment_interval: parties.loan.terms.payment_interval,
                    payments_remaining: parties.loan.terms.payments_remaining,
                    management_fee_rate: parties.broker.management_fee_rate,
                },
            ),
        ),
{
    let made = payment_was_made_of(run, payment);
    let parts = made.1;
    let calls = run.spec_divided(parties).calls;
    assert(calls.len() == 9) by {
        reveal(LoanPayRun::spec_divided);
    }
    assert forall|i: int| 0 <= i < 9 implies run.calls().contains(#[trigger] calls[i]) by {
        assert(calls.contains(calls[i]));
        every_stretch_counts(run, payment, parties, parts, calls[i]);
    }
    assert(run.calls().contains(calls[0]) && run.calls().contains(calls[1]) && run.calls().contains(
        calls[2],
    ) && run.calls().contains(calls[3]) && run.calls().contains(calls[4]) && run.calls().contains(
        calls[5],
    ) && run.calls().contains(calls[6]) && run.calls().contains(calls[7]) && run.calls().contains(
        calls[8],
    ));
    reveal(LoanPayRun::spec_divided);
}

/// How much a payment covers is worked out of the whole of what counts: a regular one of its
/// amount, one of more than is due of what counts of its amount, and in both cases with the service
/// fee of the loan and the loan as it stands.
pub proof fn instalments_are_worked_out(run: LoanPayRun, payment: LoanPayment, parties: LoanParties)
    requires
        run.payment_type == LoanPayPaymentType::Regular || run.payment_type
            == LoanPayPaymentType::Overpayment,
        run.regular_payment > 0,
        run.outcome().payment == Some(payment),
        run.spec_parties() == Ok::<LoanParties, Ter>(parties),
    ensures
        run.calls().contains(
            LoanCall::Schedule {
                offered: if run.payment_type == LoanPayPaymentType::Regular {
                    run.amount
                } else {
                    run.effective
                },
                service_fee: parties.loan.terms.service_fee,
                period: PeriodQuery {
                    asset: parties.asset,
                    scale: parties.loan.terms.scale,
                    total_value: parties.loan.terms.total_value_outstanding,
                    principal: parties.loan.terms.principal_outstanding,
                    management_fee: parties.loan.terms.management_fee_outstanding,
                    periodic_payment: parties.loan.terms.periodic_payment,
                    interest_rate: parties.loan.terms.interest_rate,
                    payment_interval: parties.loan.terms.payment_interval,
                    payments_remaining: parties.loan.terms.payments_remaining,
                    management_fee_rate: parties.broker.management_fee_rate,
                },
            },
        ),
        run.calls().contains(
            LoanCall::Sum {
                first: run.rounded_periodic_payment,
                second: parties.loan.terms.service_fee,
            },
        ),
        run.calls().contains(
            LoanCall::Round {
                asset: parties.asset,
                number: parties.loan.terms.periodic_payment,
                scale: parties.loan.terms.scale,
                mode: Rounding::Upward,
            },
        ),
{
    let made = payment_was_made_of(run, payment);
    let parts = made.1;
    let calls = run.spec_divided(parties).calls;
    assert(calls.len() > 0) by {
        reveal(LoanPayRun::spec_divided);
    }
    assert(calls.contains(calls[0]));
    every_stretch_counts(run, payment, parties, parts, calls[0]);
    let offered = run.offered_calls(parties);
    assert(offered.len() == 4) by {
        reveal(LoanPayRun::offered_calls);
    }
    assert(offered.contains(offered[1]) && offered.contains(offered[2]));
    every_stretch_counts(run, payment, parties, parts, offered[1]);
    every_stretch_counts(run, payment, parties, parts, offered[2]);
    reveal(LoanPayRun::spec_divided);
    reveal(LoanPayRun::offered_calls);
}

/// What is put into a loan on top is what the instalments leave of what counts, but no more than is
/// still owed, since the second cleanup of the rules rounded down to the scale of the loan; and the
/// loan is the one that the instalments leave.
pub proof fn overpayment_goes_into_what_is_left(
    run: LoanPayRun,
    payment: LoanPayment,
    parties: LoanParties,
)
    requires
        run.payment_type == LoanPayPaymentType::Overpayment,
        run.regular_payment > 0,
        run.outcome().payment == Some(payment),
        run.spec_parties() == Ok::<LoanParties, Ter>(parties),
        parties.loan.terms.overpayment_allowed,
        run.parts.scheduled.periods < parties.loan.terms.payments_remaining,
        run.parts.scheduled.periods < 100,
        run.parts.over.scheduled_total < run.effective,
    ensures
        run.calls().contains(
            LoanCall::Difference { from: run.effective, first: run.parts.over.scheduled_total },
        ),
        run.calls().contains(
            LoanCall::DifferenceOfFour {
                from: parties.loan.terms.total_value_outstanding,
                first: run.parts.scheduled.principal,
                second: run.parts.scheduled.interest,
                third: run.parts.scheduled.management_fee,
            },
        ),
        exists|i: int|
            0 <= i < run.calls().len() && (#[trigger] run.calls()[i] matches LoanCall::Reamortize(
                query,
            ) && {
                let over = run.parts.over;
                &&& query.period.payments_remaining == parties.loan.terms.payments_remaining
                    - run.parts.scheduled.periods
                &&& over.total_left >= 0 ==> query.period.total_value == over.total_left
                &&& over.total_left < 0 ==> query.period.total_value == 0
                &&& over.principal_left >= 0 ==> query.period.principal == over.principal_left
                &&& over.management_fee_left >= 0 ==> query.period.management_fee
                    == over.management_fee_left
                &&& run.fix_cleanup_3_2_0 ==> query.amount == over.rounded_overpayment
                &&& !run.fix_cleanup_3_2_0 ==> query.amount <= over.remainder && query.amount
                    <= query.period.total_value && (query.amount == over.remainder || query.amount
                    == query.period.total_value)
                &&& query.overpayment_interest_rate
                    == parties.loan.terms.overpayment_interest_rate
                &&& query.overpayment_fee_rate == parties.loan.terms.overpayment_fee_rate
            }),
        payment.loan.periodic_payment == (match run.parts.over.extra {
            Some(extra) => Some(extra.periodic_payment),
            None => None,
        }),
        run.parts.over.extra matches Some(extra) ==> run.calls().contains(
            LoanCall::Sum { first: run.parts.scheduled.principal, second: extra.principal },
        ) && run.calls().contains(
            LoanCall::Sum { first: run.parts.scheduled.fee, second: extra.fee },
        ) && run.calls().contains(
            LoanCall::Sum { first: run.parts.over.principal, second: run.parts.over.interest },
        ) && run.calls().contains(
            LoanCall::Difference {
                from: parties.loan.terms.principal_outstanding,
                first: run.parts.over.principal,
            },
        ),
{
    let made = payment_was_made_of(run, payment);
    let parts = made.1;
    let calls = run.spec_divided(parties).calls;
    assert forall|i: int| 0 <= i < calls.len() implies run.calls().contains(#[trigger] calls[i]) by {
        assert(calls.contains(calls[i]));
        every_stretch_counts(run, payment, parties, parts, calls[i]);
    }
    named_in_the_questions(run, payment, parties, parts);
    let at: int = if run.fix_cleanup_3_2_0 {
        8
    } else {
        7
    };
    assert(calls.len() > at && calls[at] is Reamortize) by {
        reveal(LoanPayRun::spec_divided);
    }
    assert(run.calls().contains(calls[at]));
    let k = choose|k: int| 0 <= k < run.calls().len() && run.calls()[k] == calls[at];
    assert(run.calls()[k] is Reamortize);
    reveal(LoanPayRun::spec_divided);
    assert(run.calls().contains(calls[2]) && run.calls().contains(calls[5]));
    if run.parts.over.extra is Some {
        assert(run.calls().contains(calls[at + 1]) && run.calls().contains(calls[at + 4]));
    }
}

/// The scheduled payment changes only where something is put into the loan on top.
pub proof fn scheduled_payment_stays(run: LoanPayRun, payment: LoanPayment)
    requires
        run.outcome().payment == Some(payment),
        run.payment_type != LoanPayPaymentType::Overpayment,
    ensures
        payment.loan.periodic_payment is None,
{
    reveal(LoanPayRun::spec_divided);
}

/// A payment never leaves the vault with more at hand than it has, nor passes without a trace in
/// it; each of that stops it with its own result.
pub proof fn vault_is_looked_after(run: LoanPayRun, parties: LoanParties)
    requires
        run.spec_parties() == Ok::<LoanParties, Ter>(parties),
        run.spec_divided(parties).result is Ok,
        run.transfer_answers.total_paid > 0,
        run.spec_fee_route(parties.broker) is Ok,
        run.spec_divided(parties).result->Ok_0.value_change == 0,
    ensures
        run.transfer_answers.available_after > parties.vault.assets_total ==> run.outcome().result
            == Ter::TEC_INTERNAL,
        run.transfer_answers.available_after <= parties.vault.assets_total
            && run.transfer_answers.available_after == parties.vault.assets_available
            ==> run.outcome().result == Ter::TEC_PRECISION_LOSS,
        run.transfer_answers.available_after <= parties.vault.assets_total
            && run.transfer_answers.available_after != parties.vault.assets_available
            && run.transfer_answers.sent > run.amount ==> run.outcome().result
            == Ter::TEC_INSUFFICIENT_PAYMENT,
{
}

/// An issuer that pays with its own token can send no more than the issuance allows, since the
/// first cleanup of the rules.
pub proof fn issuers_stay_within_the_issuance(run: LoanPayRun, payment: LoanPayment, parties: LoanParties)
    requires
        run.outcome().payment == Some(payment),
        run.spec_parties() == Ok::<LoanParties, Ter>(parties),
        run.fix_cleanup_3_1_3,
        parties.asset matches Asset::Mpt(id) && id.issuer == run.borrower,
    ensures
        run.issuance matches Read::Found(cap) && cap.maximum_amount >= 0 && !cap.exceeded,
        payment.to_vault > 0 ==> (run.vault_units matches Some(units) && units >= 0),
        payment.to_broker > 0 ==> (run.broker_units matches Some(units) && units >= 0),
{
}

/// What an issuer sends is what the vault gets and what the fee comes to, in whole tokens: nothing
/// for a share of nothing, and no payment where a share cannot be counted.
pub proof fn what_an_issuer_sends(
    vault: i128,
    vault_units: Option<i64>,
    fee: i128,
    fee_units: Option<i64>,
)
    ensures
        ({
            let sent = spec_issuer_send(vault, vault_units, fee, fee_units);
            let counted = |share: i128, units: Option<i64>|
                share <= 0 || (units matches Some(n) && n >= 0);
            let worth = |share: i128, units: Option<i64>|
                if share <= 0 {
                    0int
                } else {
                    units->Some_0 as int
                };
            &&& counted(vault, vault_units) && counted(fee, fee_units) ==> (sent matches Ok(total)
                && total == worth(vault, vault_units) + worth(fee, fee_units))
            &&& !counted(vault, vault_units) || !counted(fee, fee_units) ==> sent == Err::<u64, Ter>(
                Ter::TEC_INTERNAL,
            )
        }),
{
}

/// The limits of an issuance are asked for where its issuer pays, with all that it sends, and stop
/// the payment where they are not there or are exceeded. Nobody else is held to them.
pub proof fn issuers_are_held_to_their_limits(
    run: LoanPayRun,
    asset: Asset,
    parts: PaymentParts,
    total: u64,
    cap: crate::lending::loan_pay::IssuanceCap,
)
    requires
        spec_issuer_send(
            run.transfer_answers.rounded_to_vault,
            run.vault_units,
            parts.fee,
            run.broker_units,
        ) == Ok::<u64, Ter>(total),
    ensures
        ({
            let pays = run.fix_cleanup_3_1_3 && (asset matches Asset::Mpt(id) && id.issuer
                == run.borrower);
            let calls = run.issuer_calls(asset, parts);
            &&& !pays ==> run.issuer_fault(asset, parts) is None && calls.len() == 0
            &&& pays && run.issuance is Missing ==> run.issuer_fault(asset, parts) == Some(
                Ter::TEC_OBJECT_NOT_FOUND,
            )
            &&& pays && run.issuance is Failed ==> run.issuer_fault(asset, parts) == Some(
                Ter::TEF_BAD_LEDGER,
            )
            &&& pays && run.issuance == Read::Found(cap) && cap.maximum_amount < 0
                ==> run.issuer_fault(asset, parts) == Some(Ter::TEC_INTERNAL)
            &&& pays && run.issuance == Read::Found(cap) && cap.maximum_amount >= 0 ==> {
                &&& cap.exceeded ==> run.issuer_fault(asset, parts) == Some(Ter::TEC_PATH_DRY)
                &&& !cap.exceeded ==> run.issuer_fault(asset, parts) is None
                &&& calls.last() == (LoanCall::SendLimit {
                    outstanding: cap.outstanding_amount,
                    maximum: cap.maximum_amount as u64,
                    total,
                })
                &&& calls[calls.len() - 2] == (LoanCall::Issuance { asset })
            }
            &&& pays && run.transfer_answers.rounded_to_vault > 0 ==> calls[0] == (LoanCall::Units {
                asset,
                number: run.transfer_answers.rounded_to_vault,
            })
            &&& pays && run.transfer_answers.rounded_to_vault <= 0 && parts.fee > 0 ==> calls[0] == (
            LoanCall::Units { asset, number: parts.fee })
            &&& pays && run.transfer_answers.rounded_to_vault > 0 && parts.fee > 0 ==> calls[1] == (
            LoanCall::Units { asset, number: parts.fee })
        }),
{
    reveal(LoanPayRun::issuer_calls);
}

/// Loan, broker and vault are read in turn, each by what the one before it names, once the fields
/// of the transaction were found good.
pub proof fn loan_broker_and_vault_are_read(run: LoanPayRun)
    ensures
        ({
            let calls = run.found_calls();
            let enabled = run.lending_enabled && run.dependencies_enabled;
            &&& !enabled ==> calls.len() == 0
            &&& enabled ==> calls[0] == (LoanCall::Preflight {
                loan_id_is_zero: run.loan_id.hi == 0 && run.loan_id.lo == 0,
                amount_is_positive: run.amount > 0,
                flags: run.flags.specific,
            })
            &&& enabled && run.preflight != Ter::TES_SUCCESS ==> calls.len() == 1
            &&& enabled && run.preflight == Ter::TES_SUCCESS ==> {
                &&& calls[1] == (LoanCall::PaymentType {
                    late: run.flags.late,
                    full: run.flags.full,
                    overpayment: run.flags.overpayment,
                })
                &&& calls[2] == (LoanCall::ReadLoan { id: run.loan_id })
                &&& !(run.loan is Found) ==> calls.len() == 3
                &&& run.loan matches Read::Found(loan) ==> {
                    let barred = run.payment_type == LoanPayPaymentType::Overpayment
                        && !loan.terms.overpayment_allowed;
                    &&& barred ==> calls.len() == 3
                    &&& !barred ==> calls[3] == (LoanCall::ReadBroker { id: loan.broker_id })
                    &&& !barred ==> (run.broker matches Read::Found(broker) ==> calls.len() == 5
                        && calls[4] == (LoanCall::ReadVault { id: broker.vault_id }))
                    &&& !barred && !(run.broker is Found) ==> calls.len() == 4
                }
            }
        }),
{
    reveal(LoanPayRun::found_calls);
    assert((run.loan_id.hi == 0 && run.loan_id.lo == 0) <==> run.loan_id
        == crate::ids::Uint256::spec_zero());
}

/// Who gets the fee is found out step by step: the cover that the broker must have, whether its
/// owner is deeply frozen, whether the owner is still to be authorized, and, where the owner may
/// not have the fee, whether the broker may. A step that fails is the last one.
pub proof fn who_gets_the_fee_is_asked(run: LoanPayRun, parties: LoanParties)
    ensures
        ({
            let calls = run.route_calls(parties);
            let owner = parties.broker.owner;
            let asset = parties.asset;
            let covered = parties.broker.cover_available >= run.transfer_answers.required_cover
                && run.owner_deep_frozen == Ok::<bool, Ter>(false)
                && run.owner_requires_strong_auth == Ok::<bool, Ter>(false);
            &&& calls.len() >= 2 && calls[0] is MinimumCover
            &&& calls[1] == (LoanCall::DeepFrozen { account: owner, asset })
            &&& run.owner_deep_frozen is Err ==> calls.len() == 2
            &&& run.owner_deep_frozen is Ok ==> calls.len() >= 3 && calls[2] == (
            LoanCall::StrongAuth { account: owner, asset })
            &&& run.owner_deep_frozen is Ok && run.owner_requires_strong_auth is Err
                ==> calls.len() == 3
            &&& covered ==> calls.len() == 3
            &&& run.owner_deep_frozen is Ok && run.owner_requires_strong_auth is Ok && !covered
                ==> calls.len() == 4 && calls[3] == (LoanCall::CheckPayee {
                account: parties.broker.pseudo,
                asset,
            })
        }),
{
    reveal(LoanPayRun::route_calls);
}

/// Every payment that went through had all those steps behind it.
pub proof fn every_fee_was_asked_about(
    run: LoanPayRun,
    payment: LoanPayment,
    parties: LoanParties,
    call: LoanCall,
)
    requires
        run.outcome().payment == Some(payment),
        run.spec_parties() == Ok::<LoanParties, Ter>(parties),
        run.route_calls(parties).contains(call),
    ensures
        run.calls().contains(call),
{
    let made = payment_was_made_of(run, payment);
    every_stretch_counts(run, payment, parties, made.1, call);
}

/// More is available than there is just where a vault says so, and nothing goes below zero: what is
/// above it stays.
pub proof fn what_a_vault_has(vault: LpVaultView, exceeds: bool, number: i128, floored: i128)
    requires
        call_ensures(LpVaultView::assets_available_exceeds_total, (&vault,), exceeds),
        call_ensures(floor_zero, (number,), floored),
    ensures
        exceeds <==> vault.assets_available - vault.assets_total >= 1,
        floored >= 0,
        number >= 0 ==> floored == number,
        number < 0 ==> floored == 0,
{
}

/// Adding to the cover of a broker leaves the rest of it as it was.
pub proof fn cover_is_added(broker: &mut LpBrokerView, sum: i128)
    requires
        call_ensures(LpBrokerView::add_cover_available, (broker, sum), ()),
    ensures
        final(broker).cover_available == sum,
        final(broker).debt_total == old(broker).debt_total,
        final(broker).owner == old(broker).owner,
        final(broker).pseudo == old(broker).pseudo,
        final(broker).vault_id == old(broker).vault_id,
{
}

/// A payment went through only where the money was sent, and loan, vault and broker were all there
/// and all written.
pub proof fn payments_are_sent_and_written(run: LoanPayRun, payment: LoanPayment)
    requires
        run.outcome().payment == Some(payment),
    ensures
        run.to_vault_writable && run.to_broker_writable,
        run.transfer.success(),
        run.loan_now is Found && run.loan_updated,
        run.vault_now is Found && run.vault_updated,
        run.broker_now is Found && run.broker_updated,
        run.outcome().result.success(),
{
}

/// A payment that nothing stands against goes through where it is sent and written. Shares that
/// cannot be written down are an internal fault, money that is not sent gives its own reason, and
/// anything that cannot be written afterwards is a bad ledger.
pub proof fn sending_fails_for_a_reason(run: LoanPayRun, parties: LoanParties, parts: PaymentParts)
    requires
        run.spec_fee_route(parties.broker) is Ok,
        run.vault_fault(parties.vault, parts) is None,
        run.issuer_fault(parties.asset, parts) is None,
    ensures
        ({
            let r = run.paid(parties, parts);
            let sendable = run.to_vault_writable && run.to_broker_writable;
            let written = run.loan_now is Found && run.loan_updated && run.vault_now is Found
                && run.vault_updated && run.broker_now is Found && run.broker_updated;
            &&& !sendable ==> r.result == Ter::TEC_INTERNAL
            &&& sendable && !run.transfer.success() ==> r.result == run.transfer
            &&& sendable && run.transfer.success() && !written ==> r.result == Ter::TEF_BAD_LEDGER
            &&& sendable && run.transfer.success() && written ==> r.result == Ter::TES_SUCCESS
                && r.payment is Some
            &&& !(sendable && run.transfer.success() && written) ==> r.payment is None
        }),
{
}

} // verus!
