//! Merkle roots over completion entries.

use vstd::prelude::*;
use crate::persistence::error::IdentityPersistenceError;
use crate::wire::bytes::{append_bytes, to_vec};
use crate::wire::cbor;
use crate::wire::codec::encode_value;
use crate::wire::digest;
use crate::wire::digest::Sha256Digest;
use crate::wire::value;
use crate::wire::value::{CanonicalValue, Value};

verus! {

/// Domain separator for the digest of one completion entry.
pub const COMPLETION_ENTRY_DOMAIN: &'static str =
    "dirextalk.history-recovery.completion-entry.v2\0";

/// Domain separator for an inner node over two digests.
pub const COMPLETION_ENTRY_NODE_DOMAIN: &'static str =
    "dirextalk.history-recovery.completion-entry-node.v2\0";

/// The digests of the entries.
pub open spec fn leaf_digests(entries: Seq<Value>) -> Seq<Seq<u8>> {
    Seq::new(
        entries.len(),
        |i: int|
            digest::hash_in_domain(COMPLETION_ENTRY_DOMAIN@, cbor::encoding(entries[i])),
    )
}

/// The node over the digests at `2 * i` and `2 * i + 1`; a last digest without
/// a partner is paired with itself.
pub open spec fn parent(level: Seq<Seq<u8>>, i: int) -> Seq<u8> {
    digest::hash_in_domain(
        COMPLETION_ENTRY_NODE_DOMAIN@,
        level[2 * i] + (if 2 * i + 1 < level.len() {
            level[2 * i + 1]
        } else {
            level[2 * i]
        }),
    )
}

/// The level above a level.
pub open spec fn parents(level: Seq<Seq<u8>>) -> Seq<Seq<u8>> {
    Seq::new(((level.len() + 1) / 2) as nat, |i: int| parent(level, i))
}

/// The root over a level that is not empty.
pub open spec fn merkle_root(level: Seq<Seq<u8>>) -> Seq<u8>
    decreases level.len(),
{
    if level.len() <= 1 {
        level[0]
    } else {
        merkle_root(parents(level))
    }
}

/// Every entry has a deterministic byte form.
pub open spec fn all_canonical(entries: Seq<Value>) -> bool {
    forall|i: int| 0 <= i < entries.len() ==> cbor::canonical(#[trigger] entries[i])
}

/// The models of digests.
pub open spec fn digests_view(digests: Seq<Sha256Digest>) -> Seq<Seq<u8>> {
    Seq::new(digests.len(), |i: int| digests[i]@)
}

/// The digests of the entries, if all of them have a byte form.
fn hash_leaves(entries: &Vec<CanonicalValue>) -> (level: Option<Vec<Sha256Digest>>)
    ensures
        match level {
            Some(level) => {
                &&& all_canonical(value::items_view(entries@))
                &&& digests_view(level@) == leaf_digests(value::items_view(entries@))
            },
            None => !all_canonical(value::items_view(entries@)),
        },
{
    let ghost models = value::items_view(entries@);
    let mut level: Vec<Sha256Digest> = Vec::new();
    for i in 0..entries.len()
        invariant
            models == value::items_view(entries@),
            level@.len() == i,
            forall|j: int| 0 <= j < i ==> cbor::canonical(#[trigger] models[j]),
            forall|j: int| 0 <= j < i ==> (#[trigger] level@[j])@ == leaf_digests(models)[j],
    {
        assert(models[i as int] == entries@[i as int]@);
        match encode_value(&entries[i]) {
            Ok(bytes) => level.push(
                Sha256Digest::hash_domain(COMPLETION_ENTRY_DOMAIN, bytes.as_slice()),
            ),
            Err(_) => {
                return None;
            },
        }
    }
    assert(digests_view(level@) =~= leaf_digests(models));
    Some(level)
}

/// The level above a level.
fn hash_parents(level: &Vec<Sha256Digest>) -> (above: Vec<Sha256Digest>)
    requires
        level@.len() > 1,
    ensures
        digests_view(above@) == parents(digests_view(level@)),
        above@.len() < level@.len(),
        above@.len() > 0,
{
    let ghost below = digests_view(level@);
    let mut above: Vec<Sha256Digest> = Vec::new();
    let count: usize = level.len();
    let mut i: usize = 0;
    while i < count
        invariant
            count == level@.len(),
            below == digests_view(level@),
            i == 2 * above@.len() || (i == count && 2 * above@.len() == count + 1),
            i <= count,
            forall|j: int| 0 <= j < above@.len() ==> (#[trigger] above@[j])@ == parent(below, j),
        decreases count - i,
    {
        let ghost at = above@.len() as int;
        let left = level[i];
        let right = if count - i > 1 {
            level[i + 1]
        } else {
            level[i]
        };
        let mut pair: Vec<u8> = to_vec(left.as_bytes());
        append_bytes(&mut pair, right.as_bytes());
        let node = Sha256Digest::hash_domain(COMPLETION_ENTRY_NODE_DOMAIN, pair.as_slice());
        assert(node@ == parent(below, at));
        above.push(node);
        i = if count - i > 1 {
            i + 2
        } else {
            count
        };
    }
    assert(digests_view(above@) =~= parents(below));
    above
}

/// The Merkle root over at least one entry.
pub fn merkle_entries(entries: &Vec<CanonicalValue>) -> (root: Result<
    Sha256Digest,
    IdentityPersistenceError,
>)
    requires
        entries@.len() > 0,
    ensures
        match root {
            Ok(root) => {
                &&& all_canonical(value::items_view(entries@))
                &&& root@ == merkle_root(leaf_digests(value::items_view(entries@)))
            },
            Err(error) => {
                &&& !all_canonical(value::items_view(entries@))
                &&& error == IdentityPersistenceError::RecoveryCompletionInvalid
            },
        },
{
    let mut level: Vec<Sha256Digest> = match hash_leaves(entries) {
        Some(level) => level,
        None => {
            return Err(IdentityPersistenceError::RecoveryCompletionInvalid);
        },
    };
    let ghost root = merkle_root(leaf_digests(value::items_view(entries@)));
    assert(digests_view(level@).len() == entries@.len());
    while level.len() > 1
        invariant
            level@.len() > 0,
            merkle_root(digests_view(level@)) == root,
        decreases level@.len(),
    {
        level = hash_parents(&level);
    }
    Ok(level[0])
}

} // verus!
