//! The hierarchical name hash: the all-zero root folded with the hash of
//! each label in turn, `fold(parent, h) = H(parent ++ h)`.
use vstd::prelude::*;
use soroban_sdk::Env;
use crate::address::Digest;
use crate::host::{sha256, sha256_of};

verus! {

/// The longest label the registry hashes.
pub const MAX_LABEL_LENGTH: usize = 63;

/// The name hash of the root: 32 zero bytes.
pub open spec fn zero_node() -> Seq<u8> {
    Seq::new(32, |_i: int| 0u8)
}

/// One step of the fold: the node of a child label under `parent`.
pub open spec fn fold_node(parent: Seq<u8>, label_hash: Seq<u8>) -> Seq<u8> {
    sha256_of(parent + label_hash)
}

/// The name hash of a sequence of labels, root first.
pub open spec fn namehash_of(labels: Seq<Seq<u8>>) -> Seq<u8>
    decreases labels.len(),
{
    if labels.len() == 0 {
        zero_node()
    } else {
        fold_node(namehash_of(labels.drop_last()), sha256_of(labels.last()))
    }
}

/// Appends the bytes of `b` to `out`.
pub fn append_bytes(out: &mut Vec<u8>, b: &[u8])
    ensures
        final(out)@ == old(out)@ + b@,
{
    out.extend_from_slice(b);
    assert(final(out)@ =~= old(out)@ + b@);
}

/// The all-zero root node.
pub fn root_node() -> (r: Digest)
    ensures
        r@ == zero_node(),
{
    let r: Digest = [0u8; 32];
    assert(r@ =~= zero_node());
    r
}

/// The node of a child whose label hashes to `label_hash`, under `parent`.
pub fn fold_hash(env: &Env, parent: &Digest, label_hash: &Digest) -> (r: Digest)
    ensures
        r@ == fold_node(parent@, label_hash@),
{
    let mut data: Vec<u8> = Vec::new();
    append_bytes(&mut data, parent);
    append_bytes(&mut data, label_hash);
    assert(data@ =~= parent@ + label_hash@);
    sha256(env, data.as_slice())
}

/// The hash of a single label.
pub fn label_hash(env: &Env, label: &[u8]) -> (r: Digest)
    requires
        label@.len() <= u32::MAX,
    ensures
        r@ == sha256_of(label@),
{
    sha256(env, label)
}

} // verus!
