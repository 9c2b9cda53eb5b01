//! Which manifests are told to the peers.
use vstd::prelude::*;

verus! {

/// The longest manifest that is handed on.
pub const MAX_MANIFEST_BYTES: usize = 358;

/// How many manifests are handed on.
#[derive(Clone, Copy, Debug, PartialEq, Eq, Structural)]
pub struct ManifestLimits {
    pub max_trusted_count: usize,
    pub max_untrusted_count: usize,
}

/// A manifest of the cache, by its place in it.
#[derive(Clone, Copy, Debug, PartialEq, Eq, Structural)]
pub struct CachedManifest {
    pub index: usize,
    pub len: usize,
    /// Its bytes make a manifest.
    pub well_formed: bool,
    /// It belongs to a validator that is listed.
    pub listed: bool,
}

impl CachedManifest {
    pub open spec fn usable(self) -> bool {
        self.len <= MAX_MANIFEST_BYTES && self.well_formed
    }
}

/// The places of the usable manifests that are, or are not, of listed validators.
pub open spec fn places(manifests: Seq<CachedManifest>, listed: bool) -> Seq<usize>
    decreases manifests.len(),
{
    if manifests.len() == 0 {
        Seq::empty()
    } else {
        let last = manifests.last();
        let rest = places(manifests.drop_last(), listed);
        if last.usable() && last.listed == listed {
            rest.push(last.index)
        } else {
            rest
        }
    }
}

/// The front of a list, as long as it may be.
pub open spec fn front(list: Seq<usize>, limit: usize) -> Seq<usize> {
    if list.len() <= limit {
        list
    } else {
        list.take(limit as int)
    }
}

/// The manifests that are handed on, by their places: first those of listed validators, then
/// others, each kind up to its limit.
pub open spec fn spec_selected(manifests: Seq<CachedManifest>, limits: ManifestLimits) -> Seq<usize> {
    front(places(manifests, true), limits.max_trusted_count) + front(
        places(manifests, false),
        limits.max_untrusted_count,
    )
}

fn push_front(out: &mut Vec<usize>, list: &Vec<usize>, limit: usize)
    ensures
        final(out)@ == old(out)@ + front(list@, limit),
{
    let ghost before = out@;
    let mut i: usize = 0;
    while i < list.len() && i < limit
        invariant
            i <= list@.len(),
            i <= limit,
            out@ == before + list@.take(i as int),
        decreases list@.len() - i,
    {
        out.push(list[i]);
        i = i + 1;
        proof {
            assert(list@.take(i as int) =~= list@.take(i - 1).push(list@[i - 1]));
            assert(out@ =~= before + list@.take(i as int));
        }
    }
    proof {
        assert(list@.take(i as int) =~= front(list@, limit));
    }
}

/// The manifests that are handed on, by their places, if there are any.
pub fn manifests_message(manifests: &Vec<CachedManifest>, limits: ManifestLimits) -> (r: Option<Vec<usize>>)
    ensures
        match r {
            None => spec_selected(manifests@, limits).len() == 0,
            Some(list) => list@.len() > 0 && list@ == spec_selected(manifests@, limits),
        },
{
    let mut trusted: Vec<usize> = Vec::new();
    let mut untrusted: Vec<usize> = Vec::new();
    let mut i: usize = 0;
    proof {
        assert(manifests@.take(0).len() == 0);
    }
    while i < manifests.len()
        invariant
            i <= manifests@.len(),
            trusted@ == places(manifests@.take(i as int), true),
            untrusted@ == places(manifests@.take(i as int), false),
        decreases manifests@.len() - i,
    {
        let manifest = manifests[i];
        proof {
            assert(manifests@.take(i as int + 1).drop_last() =~= manifests@.take(i as int));
        }
        if manifest.len <= MAX_MANIFEST_BYTES && manifest.well_formed {
            if manifest.listed {
                trusted.push(manifest.index);
            } else {
                untrusted.push(manifest.index);
            }
        }
        i = i + 1;
    }
    proof {
        assert(manifests@.take(i as int) =~= manifests@);
    }
    let mut out: Vec<usize> = Vec::new();
    push_front(&mut out, &trusted, limits.max_trusted_count);
    push_front(&mut out, &untrusted, limits.max_untrusted_count);
    proof {
        assert(out@ =~= spec_selected(manifests@, limits));
    }
    if out.len() == 0 {
        None
    } else {
        Some(out)
    }
}

/// Peers are never sent more manifests than the limits allow.
pub proof fn selection_is_bounded(manifests: Seq<CachedManifest>, limits: ManifestLimits)
    ensures
        spec_selected(manifests, limits).len() <= limits.max_trusted_count
            + limits.max_untrusted_count,
{
}

} // verus!
