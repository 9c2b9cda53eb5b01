//! How many validators stand behind a ledger.
use vstd::prelude::*;
use crate::ids::Uint256;
use crate::ord_map::OrdMap;

verus! {

/// A validation: the ledger it is for, and the sequence it names, zero where it names none.
#[derive(Clone, Copy, Debug, PartialEq, Eq, Structural)]
pub struct CurrentValidation {
    pub hash: Uint256,
    pub seq: u32,
}

/// How many validations a ledger has, and its sequence where one of them names it.
#[derive(Clone, Copy, Debug, PartialEq, Eq, Structural)]
pub struct ValidationCount {
    pub count: usize,
    pub seq: u32,
}

/// What the map holds under a hash; nothing counts as nothing.
pub open spec fn count_of(counts: Map<Uint256, ValidationCount>, hash: Uint256) -> ValidationCount {
    if counts.contains_key(hash) {
        counts[hash]
    } else {
        ValidationCount { count: 0, seq: 0 }
    }
}

/// The counts of a run of validations. The first sequence that is named stays.
pub open spec fn tally(validations: Seq<CurrentValidation>) -> Map<Uint256, ValidationCount>
    decreases validations.len(),
{
    if validations.len() == 0 {
        Map::empty()
    } else {
        let before = tally(validations.drop_last());
        let last = validations.last();
        let entry = count_of(before, last.hash);
        before.insert(
            last.hash,
            ValidationCount {
                count: (entry.count + 1) as usize,
                seq: if entry.seq == 0 {
                    last.seq
                } else {
                    entry.seq
                },
            },
        )
    }
}

/// How many of the validations are for a ledger.
pub open spec fn votes(validations: Seq<CurrentValidation>, hash: Uint256) -> nat
    decreases validations.len(),
{
    if validations.len() == 0 {
        0
    } else {
        votes(validations.drop_last(), hash) + (if validations.last().hash == hash {
            1nat
        } else {
            0
        })
    }
}

proof fn votes_are_bounded(validations: Seq<CurrentValidation>, hash: Uint256)
    ensures
        votes(validations, hash) <= validations.len(),
    decreases validations.len(),
{
    if validations.len() > 0 {
        votes_are_bounded(validations.drop_last(), hash);
    }
}

/// The count of a ledger is the number of validations for it, and a ledger without any has no
/// count.
pub proof fn tally_counts_votes(validations: Seq<CurrentValidation>, hash: Uint256)
    requires
        validations.len() <= usize::MAX,
    ensures
        count_of(tally(validations), hash).count == votes(validations, hash),
        tally(validations).contains_key(hash) <==> votes(validations, hash) > 0,
    decreases validations.len(),
{
    if validations.len() > 0 {
        tally_counts_votes(validations.drop_last(), hash);
        tally_counts_votes(validations.drop_last(), validations.last().hash);
        votes_are_bounded(validations.drop_last(), validations.last().hash);
    }
}

/// The sequence kept for a ledger is one that a validation for it names, or zero where none
/// names one.
pub proof fn tally_keeps_a_named_sequence(validations: Seq<CurrentValidation>, hash: Uint256)
    ensures
        count_of(tally(validations), hash).seq != 0 ==> exists|i: int|
            0 <= i < validations.len() && (#[trigger] validations[i]).hash == hash
                && validations[i].seq == count_of(tally(validations), hash).seq,
        count_of(tally(validations), hash).seq == 0 ==> forall|i: int|
            0 <= i < validations.len() && (#[trigger] validations[i]).hash == hash
                ==> validations[i].seq == 0,
    decreases validations.len(),
{
    if validations.len() > 0 {
        let rest = validations.drop_last();
        let n = validations.len() - 1;
        tally_keeps_a_named_sequence(rest, hash);
        let seq = count_of(tally(rest), hash).seq;
        if seq != 0 {
            let i = choose|i: int|
                0 <= i < rest.len() && (#[trigger] rest[i]).hash == hash && rest[i].seq == seq;
            assert(validations[i].hash == hash && validations[i].seq == seq);
        } else if validations.last().hash == hash {
            assert(validations[n].hash == hash);
        }
        assert forall|i: int|
            0 <= i < validations.len() && (#[trigger] validations[i]).hash == hash && count_of(
                tally(validations),
                hash,
            ).seq == 0 implies validations[i].seq == 0 by {
            if i < n {
                assert(rest[i].hash == hash);
            }
        }
    }
}

/// Counts the current validations, ledger by ledger.
pub fn consensus_built_current_validation_counts(validations: &Vec<CurrentValidation>) -> (r: OrdMap<
    Uint256,
    ValidationCount,
>)
    ensures
        r.wf(),
        r@ == tally(validations@),
{
    let mut counts: OrdMap<Uint256, ValidationCount> = OrdMap::new();
    let ghost all = validations@;
    let n: usize = validations.len();
    let mut i: usize = 0;
    proof {
        assert(all.take(0).len() == 0);
    }
    while i < n
        invariant
            all == validations@,
            n == all.len(),
            i <= n,
            counts.wf(),
            counts@ == tally(all.take(i as int)),
        decreases all.len() - i,
    {
        let validation = validations[i];
        let mut entry = counts.get_or(validation.hash, ValidationCount { count: 0, seq: 0 });
        proof {
            tally_counts_votes(all.take(i as int), validation.hash);
            votes_are_bounded(all.take(i as int), validation.hash);
            assert(all.take(i as int + 1).drop_last() =~= all.take(i as int));
        }
        entry.count = entry.count + 1;
        if entry.seq == 0 {
            entry.seq = validation.seq;
        }
        counts.insert(validation.hash, entry);
        i = i + 1;
    }
    proof {
        assert(all.take(i as int) =~= all);
    }
    counts
}

/// Another ledger than the one built here must have more validations than are needed, not just
/// as many.
pub fn consensus_built_alternate_threshold_met(validation_count: usize, needed: usize) -> (r: bool)
    ensures
        r == (validation_count > needed),
{
    validation_count > needed
}

/// A ledger that the network validated, with its sequence.
#[derive(Clone, Copy, Debug, PartialEq, Eq, Structural)]
pub struct LedgerPoint {
    pub hash: Uint256,
    pub seq: u32,
}

/// The sequence of a candidate: what its validations name, or else what the ledger itself says,
/// if it is known here.
pub open spec fn candidate_seq(
    candidates: Map<Uint256, ValidationCount>,
    known: Map<Uint256, u32>,
    hash: Uint256,
) -> u32 {
    if candidates[hash].seq != 0 {
        candidates[hash].seq
    } else if known.contains_key(hash) {
        known[hash]
    } else {
        0
    }
}

/// A candidate with enough validations that lies beyond what is validated already.
pub open spec fn eligible(
    candidates: Map<Uint256, ValidationCount>,
    known: Map<Uint256, u32>,
    hash: Uint256,
    needed: usize,
    valid_seq: u32,
) -> bool {
    candidates.contains_key(hash) && candidates[hash].count > needed && candidate_seq(
        candidates,
        known,
        hash,
    ) > valid_seq
}

/// The choice among the candidates: one that is eligible and that no other eligible one lies
/// beyond, and none only where none is eligible. Which of two that lie equally far is open.
pub open spec fn is_best(
    candidates: Map<Uint256, ValidationCount>,
    known: Map<Uint256, u32>,
    needed: usize,
    valid_seq: u32,
    best: Option<LedgerPoint>,
) -> bool {
    match best {
        None => forall|hash: Uint256|
            !(#[trigger] eligible(candidates, known, hash, needed, valid_seq)),
        Some(point) => {
            &&& eligible(candidates, known, point.hash, needed, valid_seq)
            &&& point.seq == candidate_seq(candidates, known, point.hash)
            &&& forall|hash: Uint256| #[trigger]
                eligible(candidates, known, hash, needed, valid_seq) ==> candidate_seq(
                    candidates,
                    known,
                    hash,
                ) <= point.seq
        },
    }
}

/// The ledger furthest ahead among those that enough current validations stand behind, if one
/// lies beyond what is validated already. `known` holds the sequences of ledgers that are known
/// here; they count only where no validation names one.
pub fn best_alternate(
    candidates: &OrdMap<Uint256, ValidationCount>,
    known: &OrdMap<Uint256, u32>,
    needed: usize,
    valid_seq: u32,
) -> (r: Option<LedgerPoint>)
    requires
        candidates.wf(),
        known.wf(),
    ensures
        is_best(candidates@, known@, needed, valid_seq, r),
{
    let ghost entries = candidates.entries@;
    let mut best: Option<LedgerPoint> = None;
    let mut max_seq: u32 = valid_seq;
    let mut i: usize = 0;
    while i < candidates.entries.len()
        invariant
            entries == candidates.entries@,
            candidates.wf(),
            known.wf(),
            i <= entries.len(),
            max_seq >= valid_seq,
            best is None ==> max_seq == valid_seq,
            best matches Some(point) ==> point.seq == max_seq && eligible(
                candidates@,
                known@,
                point.hash,
                needed,
                valid_seq,
            ) && point.seq == candidate_seq(candidates@, known@, point.hash),
            forall|j: int|
                0 <= j < i && eligible(
                    candidates@,
                    known@,
                    (#[trigger] entries[j]).0,
                    needed,
                    valid_seq,
                ) ==> candidate_seq(candidates@, known@, entries[j].0) <= max_seq && best is Some,
        decreases entries.len() - i,
    {
        let hash = candidates.entries[i].0;
        let entry = candidates.entries[i].1;
        proof {
            candidates.entry_is_viewed(i as int);
        }
        if consensus_built_alternate_threshold_met(entry.count, needed) {
            let seq: u32 = if entry.seq == 0 {
                known.get_or(hash, 0)
            } else {
                entry.seq
            };
            if seq > max_seq {
                max_seq = seq;
                best = Some(LedgerPoint { hash, seq });
            }
        }
        i = i + 1;
    }
    proof {
        assert forall|hash: Uint256| #[trigger]
            eligible(candidates@, known@, hash, needed, valid_seq) implies candidate_seq(
            candidates@,
            known@,
            hash,
        ) <= max_seq && best is Some by {
            assert(candidates.has(hash));
            let j = choose|j: int| 0 <= j < entries.len() && (#[trigger] entries[j]).0 == hash;
            assert(entries[j].0 == hash);
        }
    }
    best
}

} // verus!
