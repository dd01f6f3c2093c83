//! Errors of decoding a node and of resolving a child.

use vstd::prelude::*;

verus! {

/// A prefix tag byte that names neither a leaf nor an internal node.
#[derive(Clone, Copy, Debug, PartialEq, Eq, Structural)]
pub enum PrefixError {
    InvalidPrefix(u8),
}

/// Failure to turn a stored primitive back into a node.
#[derive(Clone, Copy, Debug, PartialEq, Eq, Structural)]
pub enum DeserializeError {
    PrefixError(PrefixError),
}

/// Failure below child resolution: the store's own, or a stored record that
/// does not decode.
#[derive(Clone, Copy, Debug, PartialEq, Eq)]
pub enum StorageNodeError<StorageError> {
    StorageError(StorageError),
    DeserializeError(DeserializeError),
}

/// Why a node's child could not be resolved.
#[derive(Clone, Copy, Debug, PartialEq, Eq)]
pub enum ChildError<Key, E> {
    /// The store holds nothing under the child's hash.
    ChildNotFound(Key),
    /// Only internal nodes have children.
    NodeIsLeaf,
    Error(E),
}

} // verus!
