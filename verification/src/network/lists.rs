//! Handing on the lists of validators that publishers sign.
use vstd::prelude::*;

verus! {

/// A JSON document.
#[verifier::external_type_specification]
#[verifier::external_body]
pub struct ExValue(serde_json::Value);

/// The members of a JSON object that are strings, by their names; nothing of a document that is no
/// object.
pub uninterp spec fn string_members(document: serde_json::Value) -> Map<Seq<char>, Seq<char>>;

/// Reads a member of an object with `serde_json::Value::get`, and takes it for a string with
/// `serde_json::Value::as_str`: there is a result exactly where the document is an object that has
/// a member of this name and that member is a string, and the result is that string.
#[verifier::external_body]
fn string_member(document: &serde_json::Value, name: &str) -> (r: Option<String>)
    ensures
        match r {
            Some(text) => string_members(*document).contains_key(name@) && text@
                == string_members(*document)[name@],
            None => !string_members(*document).contains_key(name@),
        },
{
    document.get(name).and_then(serde_json::Value::as_str).map(str::to_owned)
}

/// The parts of a published list, as they are written.
pub struct PublishedList {
    pub manifest: String,
    pub blob: String,
    pub signature: String,
}

/// A published list, if all of its parts are there.
pub fn published_list(manifest: Option<String>, blob: Option<String>, signature: Option<String>) -> (r: Option<
    PublishedList,
>)
    ensures
        match r {
            Some(list) => manifest == Some(list.manifest) && blob == Some(list.blob) && signature
                == Some(list.signature),
            None => manifest is None || blob is None || signature is None,
        },
{
    let manifest = match manifest {
        Some(manifest) => manifest,
        None => {
            return None;
        },
    };
    let blob = match blob {
        Some(blob) => blob,
        None => {
            return None;
        },
    };
    let signature = match signature {
        Some(signature) => signature,
        None => {
            return None;
        },
    };
    Some(PublishedList { manifest, blob, signature })
}

/// The published list in a document, if all of its parts are there.
pub fn read_published_list(document: &serde_json::Value) -> (r: Option<PublishedList>)
    ensures
        ({
            let members = string_members(*document);
            match r {
                Some(list) => {
                    &&& members.contains_key("manifest"@) && list.manifest@ == members["manifest"@]
                    &&& members.contains_key("blob"@) && list.blob@ == members["blob"@]
                    &&& members.contains_key("signature"@) && list.signature@
                        == members["signature"@]
                },
                None => !holds_list(*document),
            }
        }),
{
    let manifest = string_member(document, "manifest");
    let blob = string_member(document, "blob");
    let signature = string_member(document, "signature");
    published_list(manifest, blob, signature)
}

/// A peer, as far as lists are concerned.
#[derive(Clone, Copy, Debug, PartialEq, Eq, Structural)]
pub struct ListPeer {
    pub id: u64,
    /// It takes lists at all.
    pub propagates: bool,
    /// The last list of the publisher that it has.
    pub sequence: Option<u64>,
}

pub open spec fn last_sequence(peer: ListPeer) -> u64 {
    match peer.sequence {
        Some(sequence) => sequence,
        None => 0,
    }
}

/// A peer that lacks the list and takes it.
pub open spec fn wants(peer: ListPeer, to_skip: Seq<u64>, sequence: u64) -> bool {
    !to_skip.contains(peer.id) && peer.propagates && last_sequence(peer) < sequence
}

/// The peers that are sent the list, in their order.
pub open spec fn receivers(peers: Seq<ListPeer>, to_skip: Seq<u64>, sequence: u64) -> Seq<u64>
    decreases peers.len(),
{
    if peers.len() == 0 {
        Seq::empty()
    } else {
        let rest = receivers(peers.drop_last(), to_skip, sequence);
        if wants(peers.last(), to_skip, sequence) {
            rest.push(peers.last().id)
        } else {
            rest
        }
    }
}

fn skips(to_skip: &Vec<u64>, id: u64) -> (r: bool)
    ensures
        r == to_skip@.contains(id),
{
    let mut i: usize = 0;
    while i < to_skip.len()
        invariant
            i <= to_skip@.len(),
            forall|j: int| 0 <= j < i ==> to_skip@[j] != id,
        decreases to_skip@.len() - i,
    {
        if to_skip[i] == id {
            assert(to_skip@[i as int] == id);
            return true;
        }
        i = i + 1;
    }
    false
}

/// The peers that are sent a list: those that take lists, do not have it, and did not send it.
pub fn list_receivers(peers: &Vec<ListPeer>, to_skip: &Vec<u64>, sequence: u64) -> (r: Vec<u64>)
    ensures
        r@ == receivers(peers@, to_skip@, sequence),
{
    let mut out: Vec<u64> = Vec::new();
    let mut i: usize = 0;
    proof {
        assert(peers@.take(0).len() == 0);
    }
    while i < peers.len()
        invariant
            i <= peers@.len(),
            out@ == receivers(peers@.take(i as int), to_skip@, sequence),
        decreases peers@.len() - i,
    {
        let peer = peers[i];
        proof {
            assert(peers@.take(i as int + 1).drop_last() =~= peers@.take(i as int));
        }
        let last: u64 = match peer.sequence {
            Some(last) => last,
            None => 0,
        };
        if !(skips(to_skip, peer.id) || !peer.propagates || last >= sequence) {
            out.push(peer.id);
        }
        i = i + 1;
    }
    proof {
        assert(peers@.take(i as int) =~= peers@);
    }
    out
}

/// The version in which a list is handed on.
pub const LIST_VERSION: u32 = 1;

/// What is needed to hand on a list. Each answer counts only where the question comes up.
pub struct ListBroadcast {
    /// Whose list it is, if that is known.
    pub has_publisher: bool,
    /// Those who have it already, unless it was handed on just before.
    pub to_skip: Option<Vec<u64>>,
    /// The document that holds the list, if it can be had.
    pub document: Option<serde_json::Value>,
    /// The signature of the list in bytes, if it is written in hexadecimal digits.
    pub signature: Option<Vec<u8>>,
    pub has_overlay: bool,
    pub peers: Vec<ListPeer>,
    pub sequence: u64,
}

/// A list that is handed on. Each of its receivers has it from then on.
pub struct SentList {
    /// The manifest and the list itself, as they are written.
    pub manifest: String,
    pub blob: String,
    pub signature: Vec<u8>,
    pub version: u32,
    pub receivers: Vec<u64>,
}

/// The document holds a list with all of its parts.
pub open spec fn holds_list(document: serde_json::Value) -> bool {
    let members = string_members(document);
    members.contains_key("manifest"@) && members.contains_key("blob"@) && members.contains_key(
        "signature"@,
    )
}

impl ListBroadcast {
    pub open spec fn possible(self) -> bool {
        &&& self.has_publisher
        &&& self.to_skip is Some
        &&& self.document matches Some(document) && holds_list(document)
        &&& self.signature is Some
        &&& self.has_overlay
    }
}

/// Hands a list on: what is sent, and to whom; nothing where something is lacking.
pub fn broadcast_v1_validator_list(broadcast: ListBroadcast) -> (r: Option<SentList>)
    ensures
        (r is Some) == broadcast.possible(),
        r matches Some(sent) ==> {
            let members = string_members(broadcast.document->0);
            &&& sent.manifest@ == members["manifest"@]
            &&& sent.blob@ == members["blob"@]
            &&& sent.signature@ == broadcast.signature->0@
            &&& sent.version == LIST_VERSION
            &&& sent.receivers@ == receivers(
                broadcast.peers@,
                broadcast.to_skip->0@,
                broadcast.sequence,
            )
        },
{
    if !broadcast.has_publisher {
        return None;
    }
    let to_skip = match broadcast.to_skip {
        Some(to_skip) => to_skip,
        None => {
            return None;
        },
    };
    let list = match &broadcast.document {
        Some(document) => read_published_list(document),
        None => None,
    };
    let list = match list {
        Some(list) => list,
        None => {
            return None;
        },
    };
    let signature = match broadcast.signature {
        Some(signature) => signature,
        None => {
            return None;
        },
    };
    if !broadcast.has_overlay {
        return None;
    }
    Some(
        SentList {
            manifest: list.manifest,
            blob: list.blob,
            signature,
            version: LIST_VERSION,
            receivers: list_receivers(&broadcast.peers, &to_skip, broadcast.sequence),
        },
    )
}

/// A list is never sent back to somebody who has it.
pub proof fn senders_are_skipped(peers: Seq<ListPeer>, to_skip: Seq<u64>, sequence: u64, i: int)
    requires
        0 <= i < receivers(peers, to_skip, sequence).len(),
    ensures
        !to_skip.contains(receivers(peers, to_skip, sequence)[i]),
    decreases peers.len(),
{
    let rest = receivers(peers.drop_last(), to_skip, sequence);
    if i < rest.len() {
        senders_are_skipped(peers.drop_last(), to_skip, sequence, i);
    }
}

/// Nobody is sent the list twice: once a peer has it, it does not want it any more.
pub proof fn nobody_is_sent_it_twice(peer: ListPeer, to_skip: Seq<u64>, sequence: u64)
    ensures
        !wants(ListPeer { sequence: Some(sequence), ..peer }, to_skip, sequence),
{
}

} // verus!
