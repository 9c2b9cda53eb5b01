//! The state that submitted transactions are tried on.
use vstd::prelude::*;
use crate::ids::Uint256;

verus! {

/// A closed ledger, as far as the state on top of it cares.
#[derive(Clone, Copy, Debug, PartialEq, Eq, Structural)]
pub struct BaseHeader {
    pub hash: Uint256,
    pub close_time: u32,
}

/// The ledger that submitted transactions are tried on, and the one it stands on.
#[derive(Clone, Copy, Debug, PartialEq, Eq, Structural)]
pub struct OpenHeader {
    pub parent_hash: Uint256,
    pub parent_close_time: u32,
}

impl OpenHeader {
    pub open spec fn stands_on(self, base: BaseHeader) -> bool {
        self.parent_hash == base.hash && self.parent_close_time == base.close_time
    }

    pub open spec fn spec_on(base: BaseHeader) -> OpenHeader {
        OpenHeader { parent_hash: base.hash, parent_close_time: base.close_time }
    }

    /// Whether it stands on this very ledger.
    pub fn is_on(&self, base: BaseHeader) -> (r: bool)
        ensures
            r == self.stands_on(base),
    {
        self.parent_hash == base.hash && self.parent_close_time == base.close_time
    }
}

/// An open ledger on top of a closed one, with what has been changed in it.
pub struct Sandbox {
    pub header: OpenHeader,
    /// What has been changed, by the numbers under which whoever changed it knows it.
    pub changes: Vec<u64>,
}

/// An open ledger, with what has been changed in it as a sequence.
#[verifier::ext_equal]
pub struct SandboxView {
    pub header: OpenHeader,
    pub changes: Seq<u64>,
}

impl SandboxView {
    /// Nothing has been changed in it yet.
    pub open spec fn fresh(base: BaseHeader) -> SandboxView {
        SandboxView { header: OpenHeader::spec_on(base), changes: Seq::empty() }
    }

    pub open spec fn changed(self, change: u64) -> SandboxView {
        SandboxView { changes: self.changes.push(change), ..self }
    }
}

impl View for Sandbox {
    type V = SandboxView;

    open spec fn view(&self) -> SandboxView {
        SandboxView { header: self.header, changes: self.changes@ }
    }
}

impl Sandbox {
    /// An open ledger in which nothing has been changed yet.
    pub fn new_open(base: BaseHeader) -> (r: Sandbox)
        ensures
            r@ == SandboxView::fresh(base),
    {
        Sandbox {
            header: OpenHeader { parent_hash: base.hash, parent_close_time: base.close_time },
            changes: Vec::new(),
        }
    }
}

/// What a holder keeps, as a sequence of changes.
pub open spec fn held(holder: Option<Sandbox>) -> Option<SandboxView> {
    match holder {
        Some(sandbox) => Some(sandbox@),
        None => None,
    }
}

/// What is taken from a holder for a ledger, and what the holder is left with: what it kept, where
/// that stands on the ledger, or else an open ledger in which nothing has been changed. The holder
/// is left with nothing.
pub open spec fn taken(kept: Option<SandboxView>, base: BaseHeader) -> (
    SandboxView,
    Option<SandboxView>,
) {
    (
        match kept {
            Some(sandbox) => if sandbox.header.stands_on(base) {
                sandbox
            } else {
                SandboxView::fresh(base)
            },
            None => SandboxView::fresh(base),
        },
        None,
    )
}

/// The state that submitted transactions are tried on, while they are tried. It is taken from a
/// holder, and given back to it for the transactions to come.
pub struct PersistentSubmitSandbox {
    pub sandbox: Sandbox,
}

impl PersistentSubmitSandbox {
    /// Takes the state that is kept, if it stands on this ledger, or begins anew.
    pub fn take_or_new(holder: &mut Option<Sandbox>, base: BaseHeader) -> (r: PersistentSubmitSandbox)
        ensures
            r.sandbox@ == taken(held(*old(holder)), base).0,
            *final(holder) is None,
            held(*final(holder)) == taken(held(*old(holder)), base).1,
    {
        let sandbox = match holder.take() {
            Some(sandbox) => if sandbox.header.is_on(base) {
                sandbox
            } else {
                Sandbox::new_open(base)
            },
            None => Sandbox::new_open(base),
        };
        PersistentSubmitSandbox { sandbox }
    }

    /// The state itself, to be changed.
    pub fn view_mut(&mut self) -> (r: &mut Sandbox)
        ensures
            *r == old(self).sandbox,
            final(self).sandbox == *final(r),
    {
        &mut self.sandbox
    }

    /// Gives the state back, so that the next transaction finds it.
    pub fn give_back(self, holder: &mut Option<Sandbox>)
        ensures
            held(*final(holder)) == Some(self.sandbox@),
    {
        *holder = Some(self.sandbox);
    }
}

/// What was changed is found again exactly on the same ledger: on any other, a new state is begun,
/// in which nothing has been changed.
pub proof fn changes_are_found_on_the_same_ledger(
    before: Option<SandboxView>,
    first: BaseHeader,
    change: u64,
    base: BaseHeader,
)
    ensures
        ({
            let changed = taken(before, first).0.changed(change);
            let again = taken(Some(changed), base).0;
            &&& again.header.stands_on(base)
            &&& changed.header.stands_on(base) ==> again == changed && again.changes.contains(change)
            &&& !changed.header.stands_on(base) ==> again.changes.len() == 0
            &&& changed.header.stands_on(base) <==> first == base
        }),
{
    let changed = taken(before, first).0.changed(change);
    assert(changed.changes.last() == change);
}

/// While the state is out, its holder has nothing: whoever takes from it meanwhile begins anew.
pub proof fn holder_is_empty_until_given_back(
    before: Option<SandboxView>,
    base: BaseHeader,
    meanwhile: BaseHeader,
)
    ensures
        taken(before, base).1 is None,
        taken(taken(before, base).1, meanwhile).0 == SandboxView::fresh(meanwhile),
{
}

/// Whether the state is still kept when a ledger closes: only if it stands on that very ledger.
pub fn keeps_sandbox(held: Option<OpenHeader>, closed: BaseHeader) -> (r: bool)
    ensures
        r == (held matches Some(header) && header.stands_on(closed)),
{
    match held {
        Some(header) => header.is_on(closed),
        None => false,
    }
}

} // verus!
