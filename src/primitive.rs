//! The fixed stored form of a node: height, prefix tag, and both payload
//! fields.

use crate::error::{DeserializeError, PrefixError};
use crate::hash::Bytes32;
use crate::key::MerkleTreeKey;
use crate::node::{prefix_tag, Node, NodeView, Prefix};
use vstd::prelude::*;

verus! {

/// `(height, prefix_tag, bytes_lo, bytes_hi)`.
pub type Primitive = (u32, u8, Bytes32, Bytes32);

/// `p` is the stored form of the node `v`.
pub open spec fn is_encoding(v: NodeView, p: Primitive) -> bool {
    p.0 == v.height && p.1 == prefix_tag(v.prefix) && p.2@ == v.bytes_lo && p.3@ == v.bytes_hi
}

/// The prefix a tag byte names, where it names one.
pub open spec fn prefix_of_tag(tag: u8) -> Option<Prefix> {
    if tag == 0 {
        Some(Prefix::Leaf)
    } else if tag == 1 {
        Some(Prefix::Node)
    } else {
        None
    }
}

/// What decoding a primitive yields: the node it describes, or the error
/// for its tag byte.
pub open spec fn decoded(p: Primitive) -> Result<NodeView, DeserializeError> {
    match prefix_of_tag(p.1) {
        Some(prefix) => Ok(NodeView { height: p.0, prefix, bytes_lo: p.2@, bytes_hi: p.3@ }),
        None => Err(DeserializeError::PrefixError(PrefixError::InvalidPrefix(p.1))),
    }
}

/// The stored form of a node.
pub fn encode<Key: MerkleTreeKey>(node: &Node<Key>) -> (r: Primitive)
    ensures
        is_encoding(node@, r),
{
    (node.height(), node.prefix().tag(), *node.bytes_lo(), *node.bytes_hi())
}

/// The node that a stored primitive describes; fails exactly when the tag
/// byte is neither 0 nor 1.
pub fn decode<Key: MerkleTreeKey>(primitive: Primitive) -> (r: Result<Node<Key>, DeserializeError>)
    ensures
        match (r, decoded(primitive)) {
            (Ok(n), Ok(v)) => n@ == v,
            (Err(e), Err(f)) => e == f,
            _ => false,
        },
{
    let (height, tag, bytes_lo, bytes_hi) = primitive;
    match Prefix::from_tag(tag) {
        Ok(prefix) => Ok(Node::new(height, prefix, bytes_lo, bytes_hi)),
        Err(e) => Err(DeserializeError::PrefixError(e)),
    }
}

/// Decoding the stored form of a node gives back that node: same height,
/// prefix and payload, and so the same hash and classification.
pub proof fn lemma_round_trip(v: NodeView, p: Primitive)
    requires
        is_encoding(v, p),
    ensures
        decoded(p) == Ok::<NodeView, DeserializeError>(v),
{
}

/// A primitive whose tag byte is 0xFF, whatever its height and payload,
/// decodes to the invalid-prefix error for that byte.
pub proof fn lemma_invalid_tag_rejected(p: Primitive)
    requires
        p.1 == 0xFFu8,
    ensures
        decoded(p) == Err::<NodeView, DeserializeError>(
            DeserializeError::PrefixError(PrefixError::InvalidPrefix(0xFFu8)),
        ),
{
}

} // verus!
