//! What a transaction that claims only its fee still removes from the ledger.
use vstd::prelude::*;
use crate::ids::Uint256;
use crate::limits::{
    EXPIRED_OFFER_REMOVE_LIMIT, MAX_DELETABLE_AMM_TRUST_LINES, UNFUNDED_OFFER_REMOVE_LIMIT,
};
use crate::submit::calls::{RemovedKind, ShellCall};
use crate::submit::flags::{ApplyFlags, Read};
use crate::ter::{Ter, is_tec_claim, is_tef_failure};
use crate::tx_type::TxType;

verus! {

/// Which kinds of entries are removed for good.
#[derive(Clone, Copy, Debug, PartialEq, Eq, Structural)]
pub struct CleanupPlan {
    pub offers: bool,
    pub trust_lines: bool,
    pub nf_token_offers: bool,
    pub credentials: bool,
}

pub open spec fn spec_cleanup_plan(result: Ter, flags: ApplyFlags) -> CleanupPlan {
    let kept = !(result.claim() && flags.fail_hard);
    CleanupPlan {
        offers: kept && (result == Ter::TEC_OVERSIZE || result == Ter::TEC_KILLED),
        trust_lines: kept && result == Ter::TEC_INCOMPLETE,
        nf_token_offers: kept && result == Ter::TEC_EXPIRED,
        credentials: kept && result == Ter::TEC_EXPIRED,
    }
}

impl CleanupPlan {
    pub open spec fn any(self) -> bool {
        self.offers || self.trust_lines || self.nf_token_offers || self.credentials
    }

    /// Whether anything is to be removed.
    pub fn has_any(&self) -> (r: bool)
        ensures
            r == self.any(),
    {
        self.offers || self.trust_lines || self.nf_token_offers || self.credentials
    }
}

/// Which kinds of entries are removed after this result.
pub fn cleanup_plan(result: Ter, flags: ApplyFlags) -> (r: CleanupPlan)
    ensures
        r == spec_cleanup_plan(result, flags),
{
    let fail_hard_tec = is_tec_claim(result) && flags.fail_hard;
    CleanupPlan {
        offers: !fail_hard_tec && (result == Ter::TEC_OVERSIZE || result == Ter::TEC_KILLED),
        trust_lines: !fail_hard_tec && result == Ter::TEC_INCOMPLETE,
        nf_token_offers: !fail_hard_tec && result == Ter::TEC_EXPIRED,
        credentials: !fail_hard_tec && result == Ter::TEC_EXPIRED,
    }
}

/// The kind of an entry that the handler erased.
#[derive(Clone, Copy, Debug, PartialEq, Eq, Structural)]
pub enum ErasedKind {
    /// An offer, and whether it still asked for what it asked for before.
    Offer { taker_pays_kept: bool },
    RippleState,
    NFTokenOffer,
    Credential,
    Other,
}

/// An entry that the handler erased, and what a read of it before the handler brings.
#[derive(Clone, Copy, Debug, PartialEq, Eq, Structural)]
pub struct ErasedEntry {
    pub index: Uint256,
    pub before: Read<ErasedKind>,
}

impl ErasedEntry {
    pub open spec fn was(self, kind: ErasedKind) -> bool {
        self.before == Read::Found(kind)
    }

    /// An unfunded offer found on the way. One that the transaction itself was to replace stays.
    pub open spec fn removes_offer(self, plan: CleanupPlan, preserved: Option<Uint256>) -> bool {
        plan.offers && preserved != Some(self.index) && self.was(
            ErasedKind::Offer { taker_pays_kept: true },
        )
    }

    pub open spec fn removes_trust_line(self, plan: CleanupPlan) -> bool {
        plan.trust_lines && self.was(ErasedKind::RippleState)
    }

    pub open spec fn removes_nf_token_offer(self, plan: CleanupPlan) -> bool {
        plan.nf_token_offers && self.was(ErasedKind::NFTokenOffer)
    }

    pub open spec fn removes_credential(self, plan: CleanupPlan) -> bool {
        plan.credentials && self.was(ErasedKind::Credential)
    }
}

/// What is to be removed, kind by kind, in the order in which it was found.
struct CleanupSelection {
    pub offers: Vec<Uint256>,
    pub trust_lines: Vec<Uint256>,
    pub nf_token_offers: Vec<Uint256>,
    pub credentials: Vec<Uint256>,
}

/// The indexes of the entries that are picked, in order.
pub open spec fn picked(erased: Seq<ErasedEntry>, pick: spec_fn(ErasedEntry) -> bool) -> Seq<Uint256>
    decreases erased.len(),
{
    if erased.len() == 0 {
        Seq::empty()
    } else {
        let rest = picked(erased.drop_last(), pick);
        if pick(erased.last()) {
            rest.push(erased.last().index)
        } else {
            rest
        }
    }
}

pub open spec fn spec_preserved_offer(
    result: Ter,
    txn_type: TxType,
    replaced_offer: Option<Uint256>,
) -> Option<Uint256> {
    if result == Ter::TEC_KILLED && txn_type == TxType::OFFER_CREATE {
        replaced_offer
    } else {
        None
    }
}

/// The offer that the transaction was to replace, where it failed to: its deletion goes with it.
pub fn preserved_offer(
    result: Ter,
    txn_type: TxType,
    replaced_offer: Option<Uint256>,
) -> (r: Option<Uint256>)
    ensures
        r == spec_preserved_offer(result, txn_type, replaced_offer),
{
    if result == Ter::TEC_KILLED && txn_type == TxType::OFFER_CREATE {
        replaced_offer
    } else {
        None
    }
}

/// Picks what is to be removed; nothing where an entry could not be read.
fn select_cleanup(
    erased: &Vec<ErasedEntry>,
    plan: CleanupPlan,
    preserved: Option<Uint256>,
) -> (r: Option<CleanupSelection>)
    ensures
        (r is None) == exists|i: int|
            0 <= i < erased@.len() && (#[trigger] erased@[i]).before is Failed,
        r matches Some(selection) ==> {
            &&& selection.offers@ == picked(erased@, |e: ErasedEntry| e.removes_offer(plan, preserved))
            &&& selection.trust_lines@ == picked(erased@, |e: ErasedEntry| e.removes_trust_line(plan))
            &&& selection.nf_token_offers@ == picked(
                erased@,
                |e: ErasedEntry| e.removes_nf_token_offer(plan),
            )
            &&& selection.credentials@ == picked(erased@, |e: ErasedEntry| e.removes_credential(plan))
        },
{
    let mut offers: Vec<Uint256> = Vec::new();
    let mut trust_lines: Vec<Uint256> = Vec::new();
    let mut nf_token_offers: Vec<Uint256> = Vec::new();
    let mut credentials: Vec<Uint256> = Vec::new();
    let ghost all = erased@;
    let ghost offer_pick = |e: ErasedEntry| e.removes_offer(plan, preserved);
    let ghost line_pick = |e: ErasedEntry| e.removes_trust_line(plan);
    let ghost nft_pick = |e: ErasedEntry| e.removes_nf_token_offer(plan);
    let ghost credential_pick = |e: ErasedEntry| e.removes_credential(plan);
    let mut i: usize = 0;
    while i < erased.len()
        invariant
            i <= all.len(),
            all == erased@,
            offer_pick == (|e: ErasedEntry| e.removes_offer(plan, preserved)),
            line_pick == (|e: ErasedEntry| e.removes_trust_line(plan)),
            nft_pick == (|e: ErasedEntry| e.removes_nf_token_offer(plan)),
            credential_pick == (|e: ErasedEntry| e.removes_credential(plan)),
            forall|j: int| 0 <= j < i ==> !((#[trigger] all[j]).before is Failed),
            offers@ == picked(all.take(i as int), offer_pick),
            trust_lines@ == picked(all.take(i as int), line_pick),
            nf_token_offers@ == picked(all.take(i as int), nft_pick),
            credentials@ == picked(all.take(i as int), credential_pick),
        decreases all.len() - i,
    {
        let entry = erased[i];
        proof {
            assert(all.take(i as int + 1).drop_last() =~= all.take(i as int));
            assert(all.take(i as int + 1).last() == entry);
        }
        match entry.before {
            Read::Failed => {
                return None;
            },
            Read::Missing => {},
            Read::Found(kind) => match kind {
                ErasedKind::Offer { taker_pays_kept } => {
                    let kept = match preserved {
                        Some(index) => index == entry.index,
                        None => false,
                    };
                    if plan.offers && !kept && taker_pays_kept {
                        offers.push(entry.index);
                    }
                },
                ErasedKind::RippleState => {
                    if plan.trust_lines {
                        trust_lines.push(entry.index);
                    }
                },
                ErasedKind::NFTokenOffer => {
                    if plan.nf_token_offers {
                        nf_token_offers.push(entry.index);
                    }
                },
                ErasedKind::Credential => {
                    if plan.credentials {
                        credentials.push(entry.index);
                    }
                },
                ErasedKind::Other => {},
            },
        }
        i = i + 1;
    }
    proof {
        assert(all.take(i as int) =~= all);
    }
    Some(CleanupSelection { offers, trust_lines, nf_token_offers, credentials })
}

/// What removing one entry met.
#[derive(Clone, Copy, Debug, PartialEq, Eq, Structural)]
pub enum RemovalEvent {
    /// The entry was not there any more.
    Missing,
    /// The entry could not be read.
    Unreadable,
    /// The removal could not be written.
    Broken,
    /// The entry was removed, with this result of the removal.
    Removed(Ter),
}

impl RemovalEvent {
    /// The removal was tried.
    pub open spec fn tried(self) -> bool {
        self is Broken || self is Removed
    }
}

/// Removing entries one after the other.
#[derive(Clone, Copy, Debug, PartialEq, Eq, Structural)]
pub struct Removals {
    /// After this many the rest stays.
    pub limit: Option<usize>,
    /// A removal that says so itself has failed for good.
    pub strict: bool,
    pub removed: usize,
    pub failed: bool,
}

impl Removals {
    pub open spec fn wf(self) -> bool {
        self.limit matches Some(limit) ==> self.removed <= limit
    }

    /// Another entry is to be removed.
    pub open spec fn open(self) -> bool {
        !self.failed && (self.limit matches Some(limit) ==> self.removed < limit)
    }

    /// The removal left the ledger in a state that cannot be kept.
    pub open spec fn breaks(self, event: RemovalEvent) -> bool {
        match event {
            RemovalEvent::Missing => false,
            RemovalEvent::Unreadable => true,
            RemovalEvent::Broken => true,
            RemovalEvent::Removed(ter) => self.strict && (ter.failure() || ter == Ter::TEC_INTERNAL),
        }
    }

    /// How entries of a kind are removed: offers and token offers up to a limit, and offers and
    /// trust lines only as long as every removal leaves the ledger sound.
    pub open spec fn of(kind: RemovedKind) -> Removals {
        Removals {
            limit: match kind {
                RemovedKind::Offer => Some(UNFUNDED_OFFER_REMOVE_LIMIT),
                RemovedKind::NFTokenOffer => Some(EXPIRED_OFFER_REMOVE_LIMIT),
                _ => None,
            },
            strict: kind is Offer || kind is TrustLine,
            removed: 0,
            failed: false,
        }
    }

    /// The removals with one more.
    pub open spec fn after(self, event: RemovalEvent) -> Removals {
        if self.breaks(event) {
            Removals { failed: true, ..self }
        } else if event is Missing {
            self
        } else {
            Removals { removed: (self.removed + 1) as usize, ..self }
        }
    }

    /// Unfunded offers.
    pub fn offers() -> (r: Removals)
        ensures
            r.wf(),
            r == Removals::of(RemovedKind::Offer),
    {
        Removals { limit: Some(UNFUNDED_OFFER_REMOVE_LIMIT), strict: true, removed: 0, failed: false }
    }

    /// Expired token offers.
    pub fn nf_token_offers() -> (r: Removals)
        ensures
            r.wf(),
            r == Removals::of(RemovedKind::NFTokenOffer),
    {
        Removals { limit: Some(EXPIRED_OFFER_REMOVE_LIMIT), strict: false, removed: 0, failed: false }
    }

    /// The trust lines of a pool.
    pub fn trust_lines() -> (r: Removals)
        ensures
            r.wf(),
            r == Removals::of(RemovedKind::TrustLine),
    {
        Removals { limit: None, strict: true, removed: 0, failed: false }
    }

    /// Expired credentials.
    pub fn credentials() -> (r: Removals)
        ensures
            r.wf(),
            r == Removals::of(RemovedKind::Credential),
    {
        Removals { limit: None, strict: false, removed: 0, failed: false }
    }

    /// Whether another entry is to be removed.
    pub fn wants_more(&self) -> (r: bool)
        ensures
            r == self.open(),
    {
        !self.failed && match self.limit {
            Some(limit) => self.removed < limit,
            None => true,
        }
    }

    /// Takes down what one removal met.
    pub fn record(&mut self, event: RemovalEvent)
        requires
            old(self).wf(),
            old(self).open(),
            old(self).removed < usize::MAX,
        ensures
            final(self).wf(),
            *final(self) == old(self).after(event),
    {
        match event {
            RemovalEvent::Missing => {},
            RemovalEvent::Unreadable | RemovalEvent::Broken => {
                self.failed = true;
            },
            RemovalEvent::Removed(ter) => {
                if self.strict && (is_tef_failure(ter) || ter == Ter::TEC_INTERNAL) {
                    self.failed = true;
                } else {
                    self.removed = self.removed + 1;
                }
            },
        }
    }
}

/// Trust lines are removed only where they are not more than one transaction may delete.
pub fn removes_trust_lines(count: usize) -> (r: bool)
    ensures
        r == (0 < count <= MAX_DELETABLE_AMM_TRUST_LINES),
{
    count > 0 && count <= MAX_DELETABLE_AMM_TRUST_LINES
}

/// What the removals of one kind meet, in order; an entry of which nothing is said is not there
/// any more.
pub open spec fn event_at(events: Seq<RemovalEvent>, i: int) -> RemovalEvent {
    if 0 <= i < events.len() {
        events[i]
    } else {
        RemovalEvent::Missing
    }
}

/// The removals of one kind after `n` entries.
pub open spec fn removals_after(kind: RemovedKind, events: Seq<RemovalEvent>, n: int) -> Removals
    decreases n,
{
    if n <= 0 {
        Removals::of(kind)
    } else {
        let before = removals_after(kind, events, n - 1);
        if before.open() {
            before.after(event_at(events, n - 1))
        } else {
            before
        }
    }
}

/// What is asked for while the first `n` entries of one kind are removed.
pub open spec fn removal_calls(
    kind: RemovedKind,
    indexes: Seq<Uint256>,
    events: Seq<RemovalEvent>,
    n: int,
) -> Seq<ShellCall>
    decreases n,
{
    if n <= 0 {
        seq![]
    } else {
        let before = removal_calls(kind, indexes, events, n - 1);
        if removals_after(kind, events, n - 1).open() && event_at(events, n - 1).tried() {
            before.push(ShellCall::Remove { kind, index: indexes[n - 1] })
        } else {
            before
        }
    }
}

proof fn removals_are_counted(kind: RemovedKind, events: Seq<RemovalEvent>, n: int)
    requires
        0 <= n <= usize::MAX,
    ensures
        removals_after(kind, events, n).removed <= n,
        removals_after(kind, events, n).wf(),
    decreases n,
{
    if n > 0 {
        removals_are_counted(kind, events, n - 1);
    }
}

/// Once a removal has failed, or the limit has been reached, nothing more is removed.
proof fn closed_stays_closed(
    kind: RemovedKind,
    indexes: Seq<Uint256>,
    events: Seq<RemovalEvent>,
    n: int,
    m: int,
)
    requires
        0 <= n <= m,
        n == m || !removals_after(kind, events, n).open(),
    ensures
        removals_after(kind, events, m) == removals_after(kind, events, n),
        removal_calls(kind, indexes, events, m) == removal_calls(kind, indexes, events, n),
    decreases m,
{
    if n < m {
        closed_stays_closed(kind, indexes, events, n, m - 1);
    }
}

fn remove_all(
    kind: RemovedKind,
    indexes: &Vec<Uint256>,
    events: &Vec<RemovalEvent>,
    calls: &mut Vec<ShellCall>,
) -> (failed: bool)
    ensures
        failed == removals_after(kind, events@, indexes@.len() as int).failed,
        final(calls)@ == old(calls)@ + removal_calls(
            kind,
            indexes@,
            events@,
            indexes@.len() as int,
        ),
{
    let mut removals = match kind {
        RemovedKind::Offer => Removals::offers(),
        RemovedKind::NFTokenOffer => Removals::nf_token_offers(),
        RemovedKind::TrustLine => Removals::trust_lines(),
        RemovedKind::Credential => Removals::credentials(),
    };
    let ghost before = calls@;
    let mut i: usize = 0;
    while i < indexes.len() && removals.wants_more()
        invariant
            i <= indexes@.len(),
            removals == removals_after(kind, events@, i as int),
            calls@ == before + removal_calls(kind, indexes@, events@, i as int),
        decreases indexes@.len() - i,
    {
        proof {
            removals_are_counted(kind, events@, i as int);
        }
        let event = if i < events.len() {
            events[i]
        } else {
            RemovalEvent::Missing
        };
        if matches!(event, RemovalEvent::Broken | RemovalEvent::Removed(_)) {
            calls.push(ShellCall::Remove { kind, index: indexes[i] });
        }
        removals.record(event);
        i = i + 1;
    }
    proof {
        closed_stays_closed(kind, indexes@, events@, i as int, indexes@.len() as int);
    }
    removals.failed
}

/// What a cleanup meets in the ledger.
pub struct CleanupRun {
    /// The entries that the handler erased.
    pub erased: Vec<ErasedEntry>,
    /// What removing the entries of each kind met.
    pub offers: Vec<RemovalEvent>,
    pub nf_token_offers: Vec<RemovalEvent>,
    pub trust_lines: Vec<RemovalEvent>,
    pub credentials: Vec<RemovalEvent>,
}

impl CleanupRun {
    /// An erased entry could not be read.
    pub open spec fn unreadable(&self) -> bool {
        exists|i: int| 0 <= i < self.erased@.len() && (#[trigger] self.erased@[i]).before is Failed
    }

    pub open spec fn events(&self, kind: RemovedKind) -> Seq<RemovalEvent> {
        match kind {
            RemovedKind::Offer => self.offers@,
            RemovedKind::NFTokenOffer => self.nf_token_offers@,
            RemovedKind::TrustLine => self.trust_lines@,
            RemovedKind::Credential => self.credentials@,
        }
    }

    /// The entries of one kind that are to be removed. Trust lines are removed only where they
    /// are not more than one transaction may delete.
    pub open spec fn to_remove(
        &self,
        kind: RemovedKind,
        plan: CleanupPlan,
        preserved: Option<Uint256>,
    ) -> Seq<Uint256> {
        match kind {
            RemovedKind::Offer => picked(
                self.erased@,
                |e: ErasedEntry| e.removes_offer(plan, preserved),
            ),
            RemovedKind::NFTokenOffer => picked(
                self.erased@,
                |e: ErasedEntry| e.removes_nf_token_offer(plan),
            ),
            RemovedKind::TrustLine => {
                let lines = picked(self.erased@, |e: ErasedEntry| e.removes_trust_line(plan));
                if lines.len() <= MAX_DELETABLE_AMM_TRUST_LINES {
                    lines
                } else {
                    seq![]
                }
            },
            RemovedKind::Credential => picked(
                self.erased@,
                |e: ErasedEntry| e.removes_credential(plan),
            ),
        }
    }

    /// Removing the entries of one kind broke something.
    pub open spec fn breaks_at(
        &self,
        kind: RemovedKind,
        plan: CleanupPlan,
        preserved: Option<Uint256>,
    ) -> bool {
        removals_after(
            kind,
            self.events(kind),
            self.to_remove(kind, plan, preserved).len() as int,
        ).failed
    }

    pub open spec fn calls_for(
        &self,
        kind: RemovedKind,
        plan: CleanupPlan,
        preserved: Option<Uint256>,
    ) -> Seq<ShellCall> {
        let indexes = self.to_remove(kind, plan, preserved);
        removal_calls(kind, indexes, self.events(kind), indexes.len() as int)
    }

    /// The cleanup cannot be kept.
    pub open spec fn failed(&self, plan: CleanupPlan, preserved: Option<Uint256>) -> bool {
        self.unreadable() || self.breaks_at(RemovedKind::Offer, plan, preserved) || self.breaks_at(
            RemovedKind::NFTokenOffer,
            plan,
            preserved,
        ) || self.breaks_at(RemovedKind::TrustLine, plan, preserved) || self.breaks_at(
            RemovedKind::Credential,
            plan,
            preserved,
        )
    }

    /// What is asked for: kind by kind, up to the first that breaks something.
    pub open spec fn calls(&self, plan: CleanupPlan, preserved: Option<Uint256>) -> Seq<ShellCall> {
        if self.unreadable() {
            seq![]
        } else {
            self.calls_for(RemovedKind::Offer, plan, preserved) + if self.breaks_at(
                RemovedKind::Offer,
                plan,
                preserved,
            ) {
                seq![]
            } else {
                self.calls_for(RemovedKind::NFTokenOffer, plan, preserved) + if self.breaks_at(
                    RemovedKind::NFTokenOffer,
                    plan,
                    preserved,
                ) {
                    seq![]
                } else {
                    self.calls_for(RemovedKind::TrustLine, plan, preserved) + if self.breaks_at(
                        RemovedKind::TrustLine,
                        plan,
                        preserved,
                    ) {
                        seq![]
                    } else {
                        self.calls_for(RemovedKind::Credential, plan, preserved)
                    }
                }
            }
        }
    }
}

/// Removes what a transaction that claims only its fee still removes, and tells whether that
/// failed.
pub fn clean_up(
    run: &CleanupRun,
    plan: CleanupPlan,
    preserved: Option<Uint256>,
    calls: &mut Vec<ShellCall>,
) -> (failed: bool)
    ensures
        failed == run.failed(plan, preserved),
        final(calls)@ == old(calls)@ + run.calls(plan, preserved),
{
    let mut selection = match select_cleanup(&run.erased, plan, preserved) {
        Some(selection) => selection,
        None => {
            return true;
        },
    };
    if !removes_trust_lines(selection.trust_lines.len()) {
        selection.trust_lines = Vec::new();
    }
    assert(selection.trust_lines@ =~= run.to_remove(RemovedKind::TrustLine, plan, preserved));
    if remove_all(RemovedKind::Offer, &selection.offers, &run.offers, calls) {
        return true;
    }
    if remove_all(
        RemovedKind::NFTokenOffer,
        &selection.nf_token_offers,
        &run.nf_token_offers,
        calls,
    ) {
        return true;
    }
    if remove_all(RemovedKind::TrustLine, &selection.trust_lines, &run.trust_lines, calls) {
        return true;
    }
    remove_all(RemovedKind::Credential, &selection.credentials, &run.credentials, calls)
}

proof fn removed_is_listed(
    kind: RemovedKind,
    indexes: Seq<Uint256>,
    events: Seq<RemovalEvent>,
    n: int,
)
    requires
        0 <= n <= indexes.len(),
    ensures
        removal_calls(kind, indexes, events, n).len() <= n,
        forall|i: int|
            0 <= i < removal_calls(kind, indexes, events, n).len() ==> (#[trigger] removal_calls(
                kind,
                indexes,
                events,
                n,
            )[i] matches ShellCall::Remove { kind: k, index } && k == kind && indexes.contains(index)),
    decreases n,
{
    if n > 0 {
        removed_is_listed(kind, indexes, events, n - 1);
        assert(indexes.contains(indexes[n - 1]));
    }
}

proof fn removals_stay_limited(
    kind: RemovedKind,
    indexes: Seq<Uint256>,
    events: Seq<RemovalEvent>,
    n: int,
)
    requires
        0 <= n <= usize::MAX,
    ensures
        ({
            let after = removals_after(kind, events, n);
            let asked = removal_calls(kind, indexes, events, n).len();
            &&& after.failed ==> asked <= after.removed + 1 && (after.limit matches Some(limit)
                ==> after.removed < limit)
            &&& !after.failed ==> asked <= after.removed
            &&& after.limit == Removals::of(kind).limit
        }),
    decreases n,
{
    if n > 0 {
        removals_stay_limited(kind, indexes, events, n - 1);
        removals_are_counted(kind, events, n - 1);
    }
    removals_are_counted(kind, events, n);
}

proof fn picked_is_no_more(erased: Seq<ErasedEntry>, pick: spec_fn(ErasedEntry) -> bool)
    ensures
        picked(erased, pick).len() <= erased.len(),
    decreases erased.len(),
{
    if erased.len() > 0 {
        picked_is_no_more(erased.drop_last(), pick);
    }
}

/// A cleanup asks for no more removals of offers, of token offers and of trust lines than one
/// transaction may cause.
pub proof fn cleanup_is_limited(run: CleanupRun, plan: CleanupPlan, preserved: Option<Uint256>)
    requires
        run.erased@.len() <= usize::MAX,
    ensures
        run.calls_for(RemovedKind::Offer, plan, preserved).len() <= UNFUNDED_OFFER_REMOVE_LIMIT,
        run.calls_for(RemovedKind::NFTokenOffer, plan, preserved).len()
            <= EXPIRED_OFFER_REMOVE_LIMIT,
        run.calls_for(RemovedKind::TrustLine, plan, preserved).len()
            <= MAX_DELETABLE_AMM_TRUST_LINES,
{
    let offers = run.to_remove(RemovedKind::Offer, plan, preserved);
    let tokens = run.to_remove(RemovedKind::NFTokenOffer, plan, preserved);
    let lines = run.to_remove(RemovedKind::TrustLine, plan, preserved);
    picked_is_no_more(run.erased@, |e: ErasedEntry| e.removes_offer(plan, preserved));
    picked_is_no_more(run.erased@, |e: ErasedEntry| e.removes_nf_token_offer(plan));
    removals_stay_limited(RemovedKind::Offer, offers, run.offers@, offers.len() as int);
    removals_are_counted(RemovedKind::Offer, run.offers@, offers.len() as int);
    removals_stay_limited(
        RemovedKind::NFTokenOffer,
        tokens,
        run.nf_token_offers@,
        tokens.len() as int,
    );
    removals_are_counted(RemovedKind::NFTokenOffer, run.nf_token_offers@, tokens.len() as int);
    removed_is_listed(RemovedKind::TrustLine, lines, run.trust_lines@, lines.len() as int);
}

/// A cleanup asks for removals, and for nothing else.
pub proof fn cleanup_asks_for_removals(
    run: CleanupRun,
    plan: CleanupPlan,
    preserved: Option<Uint256>,
)
    ensures
        forall|i: int|
            0 <= i < run.calls(plan, preserved).len() ==> #[trigger] run.calls(plan, preserved)[i]
                is Remove,
{
    let offers = run.to_remove(RemovedKind::Offer, plan, preserved);
    let tokens = run.to_remove(RemovedKind::NFTokenOffer, plan, preserved);
    let lines = run.to_remove(RemovedKind::TrustLine, plan, preserved);
    let credentials = run.to_remove(RemovedKind::Credential, plan, preserved);
    removed_is_listed(RemovedKind::Offer, offers, run.offers@, offers.len() as int);
    removed_is_listed(RemovedKind::NFTokenOffer, tokens, run.nf_token_offers@, tokens.len() as int);
    removed_is_listed(RemovedKind::TrustLine, lines, run.trust_lines@, lines.len() as int);
    removed_is_listed(
        RemovedKind::Credential,
        credentials,
        run.credentials@,
        credentials.len() as int,
    );
}

/// A cleanup only asks for the removal of entries that the handler erased.
pub proof fn cleanup_removes_what_was_erased(
    run: CleanupRun,
    plan: CleanupPlan,
    preserved: Option<Uint256>,
    kind: RemovedKind,
    index: Uint256,
)
    requires
        run.calls_for(kind, plan, preserved).contains(ShellCall::Remove { kind, index }),
    ensures
        exists|i: int| 0 <= i < run.erased@.len() && (#[trigger] run.erased@[i]).index == index,
{
    let indexes = run.to_remove(kind, plan, preserved);
    removed_is_listed(kind, indexes, run.events(kind), indexes.len() as int);
    let calls = run.calls_for(kind, plan, preserved);
    let k = choose|k: int| 0 <= k < calls.len() && calls[k] == ShellCall::Remove { kind, index };
    assert(indexes.contains(index));
    match kind {
        RemovedKind::Offer => picked_was_erased(
            run.erased@,
            |e: ErasedEntry| e.removes_offer(plan, preserved),
            index,
        ),
        RemovedKind::NFTokenOffer => picked_was_erased(
            run.erased@,
            |e: ErasedEntry| e.removes_nf_token_offer(plan),
            index,
        ),
        RemovedKind::TrustLine => picked_was_erased(
            run.erased@,
            |e: ErasedEntry| e.removes_trust_line(plan),
            index,
        ),
        RemovedKind::Credential => picked_was_erased(
            run.erased@,
            |e: ErasedEntry| e.removes_credential(plan),
            index,
        ),
    }
}

/// Nothing but a claimed fee makes anything be removed, and a hard failure removes nothing.
pub proof fn cleanup_needs_a_claim(result: Ter, flags: ApplyFlags)
    ensures
        spec_cleanup_plan(result, flags).any() ==> result.claim() && !flags.fail_hard,
{
}

/// Everything that is picked was erased by the handler.
pub proof fn picked_was_erased(
    erased: Seq<ErasedEntry>,
    pick: spec_fn(ErasedEntry) -> bool,
    index: Uint256,
)
    requires
        picked(erased, pick).contains(index),
    ensures
        exists|i: int|
            0 <= i < erased.len() && (#[trigger] erased[i]).index == index && pick(erased[i]),
    decreases erased.len(),
{
    if erased.len() > 0 {
        let last = erased.len() - 1;
        if pick(erased.last()) && index == erased.last().index {
            assert(erased[last].index == index);
        } else {
            let rest = picked(erased.drop_last(), pick);
            assert(rest.contains(index)) by {
                let j = choose|j: int|
                    0 <= j < picked(erased, pick).len() && picked(erased, pick)[j] == index;
                assert(rest[j] == index);
            }
            picked_was_erased(erased.drop_last(), pick, index);
            let i = choose|i: int|
                0 <= i < erased.drop_last().len() && (#[trigger] erased.drop_last()[i]).index == index
                    && pick(erased.drop_last()[i]);
            assert(erased[i].index == index && pick(erased[i]));
        }
    }
}

} // verus!
