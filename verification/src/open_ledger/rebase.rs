//! Building the open ledger anew on top of a closed one.
use vstd::prelude::*;
use crate::build::finish::following;
use crate::ids::Uint256;
use crate::queue::sandbox::{BaseHeader, Sandbox, SandboxView, held};
use crate::submit::flags::ApplyFlags;

verus! {

/// The closed ledger that the open one is built on.
#[derive(Clone, Copy, Debug, PartialEq, Eq, Structural)]
pub struct RebaseParent {
    pub hash: Uint256,
    pub seq: u32,
    pub base_fee: u64,
    pub close_time: u32,
    pub close_time_resolution: u8,
}

/// The open ledger before anything is in it.
#[derive(Clone, Copy, Debug, PartialEq, Eq, Structural)]
pub struct OpenLedgerView {
    pub ledger_current_index: u32,
    pub base_fee_drops: u64,
    pub parent_hash: Uint256,
    pub parent_close_time: u32,
    pub close_time_resolution: u8,
}

/// What the open ledger is filled with, and in which order.
pub struct RebasePlan {
    pub view: OpenLedgerView,
    /// The transactions that this node submitted itself.
    pub local: Vec<Uint256>,
    /// The transactions that the closed ledger left over.
    pub retries: Vec<Uint256>,
    pub retries_first: bool,
    /// The ledger in which each of them is looked up: one that it holds already stays out.
    pub looked_up_in: Uint256,
    /// How they are applied.
    pub flags: ApplyFlags,
    /// The state that they are applied to: on top of the closed ledger, with nothing changed.
    pub sandbox: Sandbox,
}

impl RebaseParent {
    pub open spec fn spec_base(self) -> BaseHeader {
        BaseHeader { hash: self.hash, close_time: self.close_time }
    }
}

impl RebasePlan {
    /// The plan is one for this ledger.
    pub open spec fn is_on(self, parent: RebaseParent) -> bool {
        &&& self.view == open_view_on(parent)
        &&& self.looked_up_in == parent.hash
        &&& self.flags == ApplyFlags::spec_none()
        &&& self.sandbox@ == SandboxView::fresh(parent.spec_base())
    }
}

pub open spec fn open_view_on(parent: RebaseParent) -> OpenLedgerView {
    OpenLedgerView {
        ledger_current_index: following(parent.seq),
        base_fee_drops: parent.base_fee,
        parent_hash: parent.hash,
        parent_close_time: parent.close_time,
        close_time_resolution: parent.close_time_resolution,
    }
}

fn open_view(parent: &RebaseParent) -> (r: OpenLedgerView)
    ensures
        r == open_view_on(*parent),
{
    OpenLedgerView {
        ledger_current_index: parent.seq.saturating_add(1),
        base_fee_drops: parent.base_fee,
        parent_hash: parent.hash,
        parent_close_time: parent.close_time,
        close_time_resolution: parent.close_time_resolution,
    }
}

/// The transactions that are not done with, in their order.
pub open spec fn without(ids: Seq<Uint256>, completed: Seq<Uint256>) -> Seq<Uint256>
    decreases ids.len(),
{
    if ids.len() == 0 {
        Seq::empty()
    } else {
        let rest = without(ids.drop_last(), completed);
        if completed.contains(ids.last()) {
            rest
        } else {
            rest.push(ids.last())
        }
    }
}

/// Whether an identifier is in a list.
pub fn lists(ids: &Vec<Uint256>, id: Uint256) -> (r: bool)
    ensures
        r == ids@.contains(id),
{
    let mut i: usize = 0;
    while i < ids.len()
        invariant
            i <= ids@.len(),
            forall|j: int| 0 <= j < i ==> ids@[j] != id,
        decreases ids@.len() - i,
    {
        if ids[i] == id {
            assert(ids@[i as int] == id);
            return true;
        }
        i = i + 1;
    }
    false
}

fn leave_out(ids: &Vec<Uint256>, completed: &Vec<Uint256>) -> (r: Vec<Uint256>)
    ensures
        r@ == without(ids@, completed@),
{
    let mut out: Vec<Uint256> = Vec::new();
    let mut i: usize = 0;
    proof {
        assert(ids@.take(0).len() == 0);
    }
    while i < ids.len()
        invariant
            i <= ids@.len(),
            out@ == without(ids@.take(i as int), completed@),
        decreases ids@.len() - i,
    {
        proof {
            assert(ids@.take(i as int + 1).drop_last() =~= ids@.take(i as int));
        }
        if !lists(completed, ids[i]) {
            out.push(ids[i]);
        }
        i = i + 1;
    }
    proof {
        assert(ids@.take(i as int) =~= ids@);
    }
    out
}

fn plan_on(
    parent: &RebaseParent,
    local: Vec<Uint256>,
    retries: Vec<Uint256>,
    retries_first: bool,
) -> (r: RebasePlan)
    ensures
        r.is_on(*parent),
        r.local == local,
        r.retries == retries,
        r.retries_first == retries_first,
{
    RebasePlan {
        view: open_view(parent),
        local,
        retries,
        retries_first,
        looked_up_in: parent.hash,
        flags: ApplyFlags::none(),
        sandbox: Sandbox::new_open(
            BaseHeader { hash: parent.hash, close_time: parent.close_time },
        ),
    }
}

/// What the open ledger is filled with after consensus, without the transactions that are done
/// with.
pub fn rebuild_open_ledger_after_consensus_with_completed(
    parent: &RebaseParent,
    local: &Vec<Uint256>,
    retries: &Vec<Uint256>,
    retries_first: bool,
    completed: &Vec<Uint256>,
) -> (r: RebasePlan)
    ensures
        r.is_on(*parent),
        r.local@ == without(local@, completed@),
        r.retries@ == without(retries@, completed@),
        r.retries_first == retries_first,
{
    plan_on(parent, leave_out(local, completed), leave_out(retries, completed), retries_first)
}

/// What the open ledger is filled with after consensus, where nothing is known to be done with.
pub fn rebuild_open_ledger_after_consensus(
    parent: &RebaseParent,
    local: &Vec<Uint256>,
    retries: &Vec<Uint256>,
    retries_first: bool,
) -> (r: RebasePlan)
    ensures
        r.is_on(*parent),
        r.local@ == local@,
        r.retries@ == retries@,
        r.retries_first == retries_first,
{
    let none: Vec<Uint256> = Vec::new();
    proof {
        without_nothing(local@, none@);
        without_nothing(retries@, none@);
    }
    rebuild_open_ledger_after_consensus_with_completed(parent, local, retries, retries_first, &none)
}

/// What the open ledger is filled with after a close: what this node submitted itself.
pub fn rebuild_open_ledger_after_close(parent: &RebaseParent, local: Vec<Uint256>) -> (r: RebasePlan)
    ensures
        r.is_on(*parent),
        r.local@ == local@,
        r.retries@.len() == 0,
        !r.retries_first,
{
    plan_on(parent, local, Vec::new(), false)
}

/// The state that the transactions were applied to is the one that submitted transactions are tried
/// on from now on, whatever was kept before.
pub fn keep_rebuilt_sandbox(sandbox: Sandbox, holder: &mut Option<Sandbox>)
    ensures
        held(*final(holder)) == Some(sandbox@),
{
    *holder = Some(sandbox);
}

proof fn without_nothing(ids: Seq<Uint256>, none: Seq<Uint256>)
    requires
        none.len() == 0,
    ensures
        without(ids, none) == ids,
    decreases ids.len(),
{
    if ids.len() > 0 {
        without_nothing(ids.drop_last(), none);
        assert(without(ids, none) =~= ids);
    } else {
        assert(without(ids, none) =~= ids);
    }
}

/// What is done with does not come back, and nothing else is lost.
pub proof fn completed_stays_out(ids: Seq<Uint256>, completed: Seq<Uint256>, id: Uint256)
    ensures
        without(ids, completed).contains(id) <==> ids.contains(id) && !completed.contains(id),
    decreases ids.len(),
{
    if ids.len() > 0 {
        let front = ids.drop_last();
        completed_stays_out(front, completed, id);
        let rest = without(front, completed);
        if ids.contains(id) {
            let i = choose|i: int| 0 <= i < ids.len() && ids[i] == id;
            if i < front.len() {
                assert(front[i] == id);
            }
        }
        if front.contains(id) {
            let i = choose|i: int| 0 <= i < front.len() && front[i] == id;
            assert(ids[i] == id);
        }
        if !completed.contains(ids.last()) {
            let all = rest.push(ids.last());
            if rest.contains(id) {
                let i = choose|i: int| 0 <= i < rest.len() && rest[i] == id;
                assert(all[i] == id);
            }
            if all.contains(id) {
                let i = choose|i: int| 0 <= i < all.len() && all[i] == id;
                if i < rest.len() {
                    assert(rest[i] == id);
                }
            }
            if id == ids.last() {
                assert(all[rest.len() as int] == id);
                assert(ids[ids.len() - 1] == id);
            }
        }
    }
}

/// Whether a transaction that has found its way back into the open ledger is sent to the peers
/// again: not if it belongs into a batch, and not if the peers have it.
pub fn relays_recovered(inner_batch: bool, should_relay: bool, has_overlay: bool) -> (r: bool)
    ensures
        r == (!inner_batch && should_relay && has_overlay),
{
    !inner_batch && should_relay && has_overlay
}

} // verus!
