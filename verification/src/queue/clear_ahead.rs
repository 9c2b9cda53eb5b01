//! Paying for those that wait before it.
use vstd::prelude::*;
use crate::ids::{AccountID, Uint256};
use crate::submit::checks::SeqProxy;
use crate::submit::flags::ApplyFlags;
use crate::ter::Ter;

verus! {

/// What applying a transaction came to.
#[derive(Clone, Copy, Debug, PartialEq, Eq, Structural)]
pub struct ApplyResult {
    pub ter: Ter,
    pub applied: bool,
}

pub open spec fn not_applied(ter: Ter) -> ApplyResult {
    ApplyResult { ter, applied: false }
}

/// A transaction of the same account that waits in the queue.
#[derive(Clone, Copy, Debug, PartialEq, Eq, Structural)]
pub struct QueuedTx {
    pub id: Uint256,
    pub account: AccountID,
    pub seq_proxy: SeqProxy,
    pub fee_level: u64,
    /// How it was to be applied when it came into the queue, and still is.
    pub flags: ApplyFlags,
}

/// A transaction that has gone into the open ledger.
#[derive(Clone, Copy, Debug, PartialEq, Eq, Structural)]
pub struct RecordedTx {
    pub id: Uint256,
    pub account: AccountID,
    pub seq_proxy: SeqProxy,
}

impl QueuedTx {
    pub open spec fn spec_recorded(self) -> RecordedTx {
        RecordedTx { id: self.id, account: self.account, seq_proxy: self.seq_proxy }
    }

    /// The transaction, once it has gone into the open ledger.
    pub fn recorded(&self) -> (r: RecordedTx)
        ensures
            r == self.spec_recorded(),
    {
        RecordedTx { id: self.id, account: self.account, seq_proxy: self.seq_proxy }
    }
}

/// What fees are measured by.
#[derive(Clone, Copy, Debug, PartialEq, Eq, Structural)]
pub struct FeeMetrics {
    pub txns_expected: u64,
    pub escalation_multiplier: u64,
}

/// The sum of the squares from one number to another.
pub open spec fn squares(from: int, to: int) -> int
    decreases to - from + 1,
{
    if from > to {
        0
    } else {
        squares(from, to - 1) + to * to
    }
}

/// Six times the sum of the squares from one on.
pub open spec fn pyramid(n: int) -> int {
    n * (n + 1) * (2 * n + 1)
}

proof fn pyramid_grows(n: int)
    ensures
        pyramid(n) == pyramid(n - 1) + 6 * (n * n),
{
    assert(n * (n + 1) * (2 * n + 1) == (n - 1) * ((n - 1) + 1) * (2 * (n - 1) + 1) + 6 * (n * n))
        by (nonlinear_arith);
}

/// The squares from one number to another, by the sums from one on.
pub proof fn pyramid_sums_squares(from: int, to: int)
    requires
        1 <= from,
        from - 1 <= to,
    ensures
        6 * squares(from, to) == pyramid(to) - pyramid(from - 1),
    decreases to - from + 1,
{
    if from <= to {
        pyramid_sums_squares(from, to - 1);
        pyramid_grows(to);
    }
}

proof fn pyramid_has_six(n: int)
    requires
        0 <= n,
    ensures
        pyramid(n) == 6 * squares(1, n),
        squares(1, n) >= 0,
    decreases n,
{
    assert(pyramid(0) == 0) by (nonlinear_arith);
    pyramid_sums_squares(1, n);
    if n > 0 {
        pyramid_has_six(n - 1);
        assert(n * n >= 0) by (nonlinear_arith);
    }
}

proof fn pyramid_is_ordered(m: int, n: int)
    requires
        0 <= m <= n,
    ensures
        squares(1, m) <= squares(1, n),
    decreases n - m,
{
    if m < n {
        pyramid_is_ordered(m, n - 1);
        assert(n * n >= 0) by (nonlinear_arith);
    }
}

/// The fee level that a run of transactions must pay together, so that all of them get into a
/// ledger that already holds `current`: the fee of each grows with the square of its place. There
/// is none while the ledger is not full, and none that is beyond every bound.
pub open spec fn spec_required_fee_level(current: int, series_size: int, metrics: FeeMetrics) -> Option<
    u64,
> {
    let target = metrics.txns_expected as int;
    let last = current + series_size - 1;
    if current <= target || target == 0 || series_size == 0 || last > u128::MAX || pyramid(last)
        > u128::MAX {
        None
    } else {
        let series = squares(current, last);
        let scaled = metrics.escalation_multiplier * series;
        let total = scaled / (target * target);
        if scaled > u128::MAX || total > u64::MAX {
            None
        } else {
            Some(total as u64)
        }
    }
}

fn sum_squares(n: u128) -> (r: Option<u128>)
    ensures
        r == (if pyramid(n as int) > u128::MAX {
            None::<u128>
        } else {
            Some(squares(1, n as int) as u128)
        }),
        pyramid(n as int) <= u128::MAX ==> squares(1, n as int) <= u128::MAX,
{
    proof {
        pyramid_has_six(n as int);
        assert(n * (n + 1) >= n) by (nonlinear_arith)
            requires
                n >= 0,
        ;
        assert(n * (n + 1) >= 0) by (nonlinear_arith)
            requires
                n >= 0,
        ;
        let a = n * (n + 1);
        let b = 2 * n + 1;
        assert(a * b >= a) by (nonlinear_arith)
            requires
                a >= 0,
                b >= 1,
        ;
        if n > 0 {
            assert(a >= 1) by (nonlinear_arith)
                requires
                    a == n * (n + 1),
                    n >= 1,
            ;
            assert(a * b >= b) by (nonlinear_arith)
                requires
                    a >= 1,
                    b >= 1,
            ;
        }
        assert(pyramid(n as int) == a * b);
    }
    let next: u128 = match n.checked_add(1) {
        Some(next) => next,
        None => {
            return None;
        },
    };
    let product: u128 = match n.checked_mul(next) {
        Some(product) => product,
        None => {
            return None;
        },
    };
    let doubled: u128 = match n.checked_mul(2) {
        Some(doubled) => doubled,
        None => {
            return None;
        },
    };
    let odd: u128 = match doubled.checked_add(1) {
        Some(odd) => odd,
        None => {
            return None;
        },
    };
    let whole: u128 = match product.checked_mul(odd) {
        Some(whole) => whole,
        None => {
            return None;
        },
    };
    proof {
        assert(whole == pyramid(n as int));
    }
    Some(whole / 6)
}

/// The fee level that a run of transactions must pay together.
pub fn clear_ahead_required_fee_level(
    open_tx_count: usize,
    series_size: usize,
    metrics: FeeMetrics,
) -> (r: Option<u64>)
    ensures
        r == spec_required_fee_level(open_tx_count as int, series_size as int, metrics),
{
    let current: u128 = open_tx_count as u128;
    let target: u128 = metrics.txns_expected as u128;
    if current <= target || target == 0 || series_size == 0 {
        return None;
    }
    let last: u128 = current + (series_size - 1) as u128;
    proof {
        pyramid_has_six(last as int);
        pyramid_has_six(current - 1);
        pyramid_is_ordered(current - 1, last as int);
        pyramid_sums_squares(current as int, last as int);
    }
    let upper: u128 = match sum_squares(last) {
        Some(upper) => upper,
        None => {
            return None;
        },
    };
    let lower: u128 = match sum_squares(current - 1) {
        Some(lower) => lower,
        None => {
            assert(false);
            return None;
        },
    };
    let series: u128 = upper - lower;
    proof {
        assert(series == squares(current as int, last as int));
    }
    let scaled: u128 = match (metrics.escalation_multiplier as u128).checked_mul(series) {
        Some(scaled) => scaled,
        None => {
            return None;
        },
    };
    proof {
        assert(target * target <= 0xffff_ffff_ffff_ffff * 0xffff_ffff_ffff_ffff) by (nonlinear_arith)
            requires
                0 <= target <= 0xffff_ffff_ffff_ffff,
        ;
        assert(target * target > 0) by (nonlinear_arith)
            requires
                target > 0,
        ;
    }
    let total: u128 = scaled / (target * target);
    if total > u64::MAX as u128 {
        return None;
    }
    Some(total as u64)
}

/// Those of the queue that come before the transaction, in their order.
pub open spec fn before_it(queue: Seq<QueuedTx>, target: SeqProxy) -> Seq<QueuedTx>
    decreases queue.len(),
{
    if queue.len() == 0 {
        Seq::empty()
    } else if queue.last().seq_proxy.before(target) {
        before_it(queue.drop_last(), target).push(queue.last())
    } else {
        before_it(queue.drop_last(), target)
    }
}

proof fn before_it_comes_before(queue: Seq<QueuedTx>, target: SeqProxy)
    ensures
        forall|i: int|
            0 <= i < before_it(queue, target).len() ==> (#[trigger] before_it(
                queue,
                target,
            )[i]).seq_proxy.before(target),
    decreases queue.len(),
{
    if queue.len() > 0 {
        before_it_comes_before(queue.drop_last(), target);
    }
}

/// A transaction never pays for itself, nor for one that comes after it.
pub proof fn only_those_before_are_paid_for(queue: Seq<QueuedTx>, target: SeqProxy)
    ensures
        forall|i: int|
            0 <= i < before_it(queue, target).len() ==> (#[trigger] before_it(
                queue,
                target,
            )[i]).seq_proxy.before(target) && before_it(queue, target)[i].seq_proxy != target,
{
    before_it_comes_before(queue, target);
}

/// What is paid by the transaction and those before it.
pub open spec fn paid_together(own: u64, before: Seq<QueuedTx>) -> int
    decreases before.len(),
{
    if before.len() == 0 {
        own as int
    } else {
        paid_together(own, before.drop_last()) + before.last().fee_level
    }
}

proof fn paid_together_is_ordered(own: u64, before: Seq<QueuedTx>, n: int)
    requires
        0 <= n <= before.len(),
    ensures
        paid_together(own, before.take(n)) <= paid_together(own, before),
    decreases before.len(),
{
    if n < before.len() {
        paid_together_is_ordered(own, before.drop_last(), n);
        assert(before.drop_last().take(n) =~= before.take(n));
    } else {
        assert(before.take(n) =~= before);
    }
}

/// Why the transaction cannot pay for those before it. `own` is what it pays itself.
pub open spec fn clear_ahead_refusal(
    queue: Seq<QueuedTx>,
    target: SeqProxy,
    own: Result<u64, Ter>,
    open_tx_count: int,
    metrics: FeeMetrics,
) -> Option<Ter> {
    let before = before_it(queue, target);
    if before.len() == 0 {
        Some(Ter::TER_QUEUED)
    } else {
        match own {
            Err(ter) => Some(ter),
            Ok(own) => {
                let paid = paid_together(own, before);
                match spec_required_fee_level(open_tx_count, (before.len() + 1) as int, metrics) {
                    None => Some(Ter::TEL_INSUF_FEE_P),
                    Some(required) => if paid > u64::MAX || paid < required {
                        Some(Ter::TEL_INSUF_FEE_P)
                    } else {
                        None
                    },
                }
            },
        }
    }
}

fn select_before(queue: &Vec<QueuedTx>, target: SeqProxy) -> (r: Vec<QueuedTx>)
    ensures
        r@ == before_it(queue@, target),
        r@.len() <= queue@.len(),
{
    let mut out: Vec<QueuedTx> = Vec::new();
    let mut i: usize = 0;
    proof {
        assert(queue@.take(0).len() == 0);
    }
    while i < queue.len()
        invariant
            i <= queue@.len(),
            out@ == before_it(queue@.take(i as int), target),
            out@.len() <= i,
        decreases queue@.len() - i,
    {
        proof {
            assert(queue@.take(i as int + 1).drop_last() =~= queue@.take(i as int));
        }
        if queue[i].seq_proxy.comes_before(target) {
            out.push(queue[i]);
        }
        i = i + 1;
    }
    proof {
        assert(queue@.take(i as int) =~= queue@);
    }
    out
}

fn add_up(own: u64, before: &Vec<QueuedTx>) -> (r: Option<u64>)
    ensures
        r == (if paid_together(own, before@) > u64::MAX {
            None::<u64>
        } else {
            Some(paid_together(own, before@) as u64)
        }),
        paid_together(own, before@) >= 0,
{
    let mut total: u64 = own;
    let mut i: usize = 0;
    proof {
        assert(before@.take(0).len() == 0);
    }
    while i < before.len()
        invariant
            i <= before@.len(),
            total == paid_together(own, before@.take(i as int)),
        decreases before@.len() - i,
    {
        proof {
            assert(before@.take(i as int + 1).drop_last() =~= before@.take(i as int));
            paid_together_is_ordered(own, before@, i as int + 1);
        }
        total = match total.checked_add(before[i].fee_level) {
            Some(total) => total,
            None => {
                return None;
            },
        };
        i = i + 1;
    }
    proof {
        assert(before@.take(i as int) =~= before@);
    }
    Some(total)
}

/// A transaction that pays for those before it.
pub struct ClearAhead {
    pub target: SeqProxy,
    /// Those before it, and how many of them have been applied.
    pub before: Vec<QueuedTx>,
    pub next: usize,
    /// What each attempt came to; the queue remembers them whatever happens.
    pub attempts: Vec<ApplyResult>,
    /// Those that were applied and are not used up already.
    pub applied: Vec<RecordedTx>,
    /// It waits in the queue itself.
    pub queued: bool,
}

/// What paying for those before it came to.
pub struct ClearAheadOutcome {
    pub result: ApplyResult,
    /// The transactions that are now in the open ledger, in order.
    pub recorded: Vec<RecordedTx>,
    /// The places in the queue that are free now.
    pub removed: Vec<SeqProxy>,
    /// What the transaction itself delivered, by the number under which the caller keeps the amount.
    pub delivered: Option<u64>,
}

pub open spec fn holds_proxy(queue: Seq<QueuedTx>, target: SeqProxy) -> bool {
    exists|i: int| 0 <= i < queue.len() && (#[trigger] queue[i]).seq_proxy == target
}

/// The transactions among the first `n` that came through.
pub open spec fn came_through(before: Seq<QueuedTx>, attempts: Seq<ApplyResult>, n: int) -> Seq<
    RecordedTx,
>
    decreases n,
{
    if n <= 0 {
        Seq::empty()
    } else if attempts[n - 1].applied && attempts[n - 1].ter != Ter::TEF_NO_TICKET {
        came_through(before, attempts, n - 1).push(before[n - 1].spec_recorded())
    } else {
        came_through(before, attempts, n - 1)
    }
}

/// A transaction stands in the way of those behind it unless it was applied, or its ticket was
/// used up before.
pub open spec fn stands_in_the_way(result: ApplyResult) -> bool {
    result.ter != Ter::TEF_NO_TICKET && !result.applied
}

impl ClearAhead {
    pub open spec fn wf(self) -> bool {
        &&& self.next <= self.before@.len()
        &&& self.attempts@.len() == self.next
        &&& self.applied@ == came_through(self.before@, self.attempts@, self.next as int)
        &&& forall|i: int| 0 <= i < self.next ==> !stands_in_the_way(#[trigger] self.attempts@[i])
    }

    /// Starts, if the transaction pays enough for all of them.
    pub fn start(
        target: SeqProxy,
        queue: &Vec<QueuedTx>,
        own: Result<u64, Ter>,
        open_tx_count: usize,
        metrics: FeeMetrics,
    ) -> (r: Result<ClearAhead, Ter>)
        requires
            queue@.len() < usize::MAX,
        ensures
            match clear_ahead_refusal(queue@, target, own, open_tx_count as int, metrics) {
                Some(ter) => r matches Err(error) && error == ter,
                None => r matches Ok(run) && {
                    &&& run.wf()
                    &&& run.target == target
                    &&& run.before@ == before_it(queue@, target)
                    &&& run.next == 0
                    &&& run.queued == holds_proxy(queue@, target)
                },
            },
    {
        let before = select_before(queue, target);
        if before.len() == 0 {
            return Err(Ter::TER_QUEUED);
        }
        let own: u64 = match own {
            Ok(own) => own,
            Err(ter) => {
                return Err(ter);
            },
        };
        let paid = add_up(own, &before);
        let required = clear_ahead_required_fee_level(open_tx_count, before.len() + 1, metrics);
        let paid: u64 = match paid {
            Some(paid) => paid,
            None => {
                return Err(Ter::TEL_INSUF_FEE_P);
            },
        };
        let required: u64 = match required {
            Some(required) => required,
            None => {
                return Err(Ter::TEL_INSUF_FEE_P);
            },
        };
        if paid < required {
            return Err(Ter::TEL_INSUF_FEE_P);
        }
        let mut queued = false;
        let mut i: usize = 0;
        while i < queue.len()
            invariant
                i <= queue@.len(),
                queued == exists|j: int|
                    0 <= j < i && (#[trigger] queue@[j]).seq_proxy == target,
            decreases queue@.len() - i,
        {
            if queue[i].seq_proxy == target {
                queued = true;
                assert(queue@[i as int].seq_proxy == target);
            }
            i = i + 1;
        }
        let attempts: Vec<ApplyResult> = Vec::new();
        let applied: Vec<RecordedTx> = Vec::new();
        proof {
            assert(applied@ =~= came_through(before@, attempts@, 0));
        }
        Ok(ClearAhead { target, before, next: 0, attempts, applied, queued })
    }

    /// The next of those before it, if any is left.
    pub fn next_before(&self) -> (r: Option<QueuedTx>)
        requires
            self.wf(),
        ensures
            r == (if self.next < self.before@.len() {
                Some(self.before@[self.next as int])
            } else {
                None
            }),
    {
        if self.next < self.before.len() {
            Some(self.before[self.next])
        } else {
            None
        }
    }

    /// Takes in what that one came to. One that stands in the way ends it all: its result is that
    /// of the whole.
    pub fn note_before(&mut self, result: ApplyResult) -> (r: Option<ApplyResult>)
        requires
            old(self).wf(),
            old(self).next < old(self).before@.len(),
        ensures
            r == (if stands_in_the_way(result) {
                Some(result)
            } else {
                None
            }),
            final(self).attempts@ == old(self).attempts@.push(result),
            final(self).before@ == old(self).before@,
            final(self).target == old(self).target,
            final(self).queued == old(self).queued,
            r is None ==> final(self).wf() && final(self).next == old(self).next + 1,
    {
        let count: usize = self.before.len();
        assert(self.next < count);
        let recorded = self.before[self.next].recorded();
        let ghost earlier = self.attempts@;
        self.attempts.push(result);
        if result.ter != Ter::TEF_NO_TICKET && !result.applied {
            return Some(result);
        }
        if result.ter != Ter::TEF_NO_TICKET {
            self.applied.push(recorded);
        }
        self.next = self.next + 1;
        proof {
            assert(earlier =~= self.attempts@.take(earlier.len() as int));
            came_through_is_stable(self.before@, earlier, self.attempts@, self.next - 1);
        }
        None
    }

    /// Ends it with the transaction itself: `current` is what it came to on top of those before
    /// it, with what it delivered, and `committed` whether all of that could be kept.
    pub fn finish(
        self,
        current: ApplyResult,
        id: Uint256,
        account: AccountID,
        delivered: Option<u64>,
        committed: bool,
    ) -> (r: ClearAheadOutcome)
        requires
            self.wf(),
            self.next == self.before@.len(),
        ensures
            ({
                let kept = current.applied && committed;
                &&& r.result == (if current.applied && !committed {
                    not_applied(Ter::TEF_INTERNAL)
                } else {
                    current
                })
                &&& r.recorded@ == (if kept {
                    self.applied@.push(RecordedTx { id, account, seq_proxy: self.target })
                } else {
                    Seq::empty()
                })
                &&& r.delivered == (if kept {
                    delivered
                } else {
                    None
                })
                &&& r.removed@ == (if !kept {
                    Seq::empty()
                } else if self.queued {
                    proxies(self.before@).push(self.target)
                } else {
                    proxies(self.before@)
                })
            }),
    {
        if !current.applied {
            return ClearAheadOutcome {
                result: current,
                recorded: Vec::new(),
                removed: Vec::new(),
                delivered: None,
            };
        }
        if !committed {
            return ClearAheadOutcome {
                result: ApplyResult { ter: Ter::TEF_INTERNAL, applied: false },
                recorded: Vec::new(),
                removed: Vec::new(),
                delivered: None,
            };
        }
        let mut recorded = self.applied;
        recorded.push(RecordedTx { id, account, seq_proxy: self.target });
        let mut removed: Vec<SeqProxy> = Vec::new();
        let mut i: usize = 0;
        while i < self.before.len()
            invariant
                i <= self.before@.len(),
                removed@ == proxies(self.before@).take(i as int),
            decreases self.before@.len() - i,
        {
            removed.push(self.before[i].seq_proxy);
            i = i + 1;
            proof {
                assert(removed@ =~= proxies(self.before@).take(i as int));
            }
        }
        proof {
            assert(removed@ =~= proxies(self.before@));
        }
        if self.queued {
            removed.push(self.target);
        }
        ClearAheadOutcome { result: current, recorded, removed, delivered }
    }
}

pub open spec fn proxies(before: Seq<QueuedTx>) -> Seq<SeqProxy> {
    Seq::new(before.len(), |i: int| before[i].seq_proxy)
}

proof fn came_through_is_stable(
    before: Seq<QueuedTx>,
    short: Seq<ApplyResult>,
    long: Seq<ApplyResult>,
    n: int,
)
    requires
        0 <= n <= short.len() <= long.len(),
        short == long.take(short.len() as int),
    ensures
        came_through(before, short, n) == came_through(before, long, n),
    decreases n,
{
    if n > 0 {
        came_through_is_stable(before, short, long, n - 1);
        assert(short[n - 1] == long.take(short.len() as int)[n - 1]);
    }
}

proof fn squares_are_positive(from: int, to: int)
    ensures
        squares(from, to) >= 0,
    decreases to - from + 1,
{
    if from <= to {
        squares_are_positive(from, to - 1);
        assert(to * to >= 0) by (nonlinear_arith);
    }
}

/// Paying for one more transaction never costs less.
pub proof fn longer_series_costs_more(current: int, size: int, metrics: FeeMetrics)
    requires
        current >= 0,
        size >= 0,
        spec_required_fee_level(current, size, metrics) is Some,
        spec_required_fee_level(current, size + 1, metrics) is Some,
    ensures
        spec_required_fee_level(current, size, metrics)->0 <= spec_required_fee_level(
            current,
            size + 1,
            metrics,
        )->0,
{
    let target = metrics.txns_expected as int;
    let last = current + size - 1;
    let a = squares(current, last);
    let b = squares(current, last + 1);
    assert((last + 1) * (last + 1) >= 0) by (nonlinear_arith);
    let m = metrics.escalation_multiplier as int;
    assert(m * a <= m * b) by (nonlinear_arith)
        requires
            a <= b,
            m >= 0,
    ;
    let d = target * target;
    assert(d > 0) by (nonlinear_arith)
        requires
            d == target * target,
            target > 0,
    ;
    squares_are_positive(current, last);
    assert(m * a >= 0) by (nonlinear_arith)
        requires
            m >= 0,
            a >= 0,
    ;
    vstd::arithmetic::div_mod::lemma_div_is_ordered(m * a, m * b, d);
    vstd::arithmetic::div_mod::lemma_div_pos_is_pos(m * a, d);
    assert(b == squares(current, current + (size + 1) - 1));
}

} // verus!
