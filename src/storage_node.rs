//! A node together with the store it came from, resolving its children by
//! hash.

use crate::error::{ChildError, DeserializeError, PrefixError, StorageNodeError};
use crate::hash::{zero_digest, Bytes32};
use crate::key::MerkleTreeKey;
use crate::node::{is_zero, placeholder_view, Node, NodeView};
use crate::primitive::{decode, decoded, is_encoding, lemma_round_trip, Primitive};
use crate::storage::StorageInspect;
use vstd::prelude::*;

verus! {

/// The result of resolving a child of a node held in a store of type `S`.
pub type ChildResult<'s, S, Key> = Result<
    StorageNode<'s, S, Key>,
    ChildError<Key, StorageNodeError<<S as StorageInspect>::Error>>,
>;

/// A node and a read-only handle on the store that holds its descendants.
#[derive(Debug)]
pub struct StorageNode<'s, S, Key> {
    storage: &'s S,
    node: Node<Key>,
}

impl<'s, S, Key> View for StorageNode<'s, S, Key> {
    type V = NodeView;

    closed spec fn view(&self) -> NodeView {
        self.node@
    }
}

impl<'s, S, Key> StorageNode<'s, S, Key> {
    /// The store this node reads its children from.
    pub closed spec fn store(&self) -> S {
        *self.storage
    }
}

impl<'s, S, Key: MerkleTreeKey> StorageNode<'s, S, Key> {
    pub fn new(storage: &'s S, node: Node<Key>) -> (r: StorageNode<'s, S, Key>)
        ensures
            r@ == node@,
            r.store() == *storage,
    {
        StorageNode { storage, node }
    }

    /// The wrapped node's hash; no store access.
    pub fn hash(&self) -> (r: Bytes32)
        ensures
            r@ == self@.hash(),
    {
        self.node.hash()
    }

    pub fn into_node(self) -> (r: Node<Key>)
        ensures
            r@ == self@,
    {
        self.node
    }

    pub fn height(&self) -> (r: u32)
        ensures
            r == self@.height,
    {
        self.node.height()
    }

    pub fn leaf_key(&self) -> (r: Key)
        requires
            self@.is_leaf(),
        ensures
            r.key_bytes() == self@.bytes_lo,
    {
        self.node.leaf_key()
    }

    pub fn is_leaf(&self) -> (r: bool)
        ensures
            r == self@.is_leaf(),
    {
        self.node.is_leaf()
    }

    pub fn is_node(&self) -> (r: bool)
        ensures
            r == self@.is_node(),
    {
        self.node.is_node()
    }
}

impl<'s, S, Key> Clone for StorageNode<'s, S, Key> {
    fn clone(&self) -> (r: Self)
        ensures
            r@ == self@,
            r.store() == self.store(),
    {
        StorageNode { storage: self.storage, node: self.node }
    }
}

/// What resolving the child with hash `key` yields, given what the store
/// answered for it: its error, a miss, or a record that decodes or not.
pub open spec fn resolves_fetched<'s, S: StorageInspect, Key: MerkleTreeKey>(
    store: S,
    key: Seq<u8>,
    fetched: Result<Option<Primitive>, S::Error>,
    r: ChildResult<'s, S, Key>,
) -> bool {
    match fetched {
        Err(e) => match r {
            Err(ChildError::Error(StorageNodeError::StorageError(f))) => f == e,
            _ => false,
        },
        Ok(None) => match r {
            Err(ChildError::ChildNotFound(k)) => k.key_bytes() == key,
            _ => false,
        },
        Ok(Some(p)) => match (decoded(p), r) {
            (Ok(v), Ok(child)) => child@ == v && child.store() == store,
            (Err(e), Err(ChildError::Error(StorageNodeError::DeserializeError(f)))) => e == f,
            _ => false,
        },
    }
}

/// What resolving the child with hash `key` may yield from `store`: a
/// placeholder for the zero hash with no lookup; else the decoded record, a
/// miss, a decode error, or a failure of the store itself.
pub open spec fn child_resolved<'s, S: StorageInspect, Key: MerkleTreeKey>(
    store: S,
    key: Seq<u8>,
    r: ChildResult<'s, S, Key>,
) -> bool {
    if key == zero_digest() {
        match r {
            Ok(child) => child@ == placeholder_view() && child.store() == store,
            _ => false,
        }
    } else {
        match r {
            Err(ChildError::Error(StorageNodeError::StorageError(_))) => true,
            Err(ChildError::NodeIsLeaf) => false,
            _ => resolves_fetched(
                store,
                key,
                Ok(
                    if store.contents().contains_key(key) {
                        Some(store.contents()[key])
                    } else {
                        None
                    },
                ),
                r,
            ),
        }
    }
}

/// A child whose stored form is held under its hash resolves, unless the
/// store itself fails, to a node with that same hash.
pub proof fn lemma_stored_child_resolves<'s, S: StorageInspect, Key: MerkleTreeKey>(
    store: S,
    child: NodeView,
    p: Primitive,
    r: ChildResult<'s, S, Key>,
)
    requires
        is_encoding(child, p),
        store.contents().contains_key(child.hash()),
        store.contents()[child.hash()] == p,
        child_resolved(store, child.hash(), r),
    ensures
        r is Ok || r matches Err(ChildError::Error(StorageNodeError::StorageError(_))),
        r matches Ok(c) ==> c@.hash() == child.hash(),
{
    lemma_round_trip(child, p);
}

/// A zero child hash resolves to a placeholder whatever the store holds.
pub proof fn lemma_zero_child_is_placeholder<'s, S: StorageInspect, Key: MerkleTreeKey>(
    store: S,
    r: ChildResult<'s, S, Key>,
)
    requires
        child_resolved(store, zero_digest(), r),
    ensures
        r matches Ok(c) && c@.is_placeholder() && c@.hash() == zero_digest(),
{
}

/// A non-zero child hash that the store does not hold resolves, unless the
/// store itself fails, to `ChildNotFound` with that hash.
pub proof fn lemma_missing_child_not_found<'s, S: StorageInspect, Key: MerkleTreeKey>(
    store: S,
    key: Seq<u8>,
    r: ChildResult<'s, S, Key>,
)
    requires
        key != zero_digest(),
        !store.contents().contains_key(key),
        child_resolved(store, key, r),
    ensures
        (r matches Err(ChildError::ChildNotFound(k)) && k.key_bytes() == key) || r matches Err(
            ChildError::Error(StorageNodeError::StorageError(_)),
        ),
{
}

/// A non-zero child hash under which the store holds a record with an
/// invalid tag byte resolves, unless the store itself fails, to the decode
/// error for that byte.
pub proof fn lemma_corrupt_child_rejected<'s, S: StorageInspect, Key: MerkleTreeKey>(
    store: S,
    key: Seq<u8>,
    r: ChildResult<'s, S, Key>,
)
    requires
        key != zero_digest(),
        store.contents().contains_key(key),
        store.contents()[key].1 > 1,
        child_resolved(store, key, r),
    ensures
        (r matches Err(ChildError::Error(StorageNodeError::DeserializeError(e))) && e
            == DeserializeError::PrefixError(PrefixError::InvalidPrefix(store.contents()[key].1)))
            || r matches Err(ChildError::Error(StorageNodeError::StorageError(_))),
{
}

impl<'s, S: StorageInspect, Key: MerkleTreeKey> StorageNode<'s, S, Key> {
    /// Turns what the store answered for the child with hash `key` into the
    /// child, or into the matching error.
    pub fn from_fetched(
        storage: &'s S,
        key: Key,
        fetched: Result<Option<Primitive>, S::Error>,
    ) -> (r: ChildResult<'s, S, Key>)
        ensures
            resolves_fetched(*storage, key.key_bytes(), fetched, r),
    {
        match fetched {
            Err(e) => Err(ChildError::Error(StorageNodeError::StorageError(e))),
            Ok(None) => Err(ChildError::ChildNotFound(key)),
            Ok(Some(primitive)) => match decode(primitive) {
                Ok(node) => Ok(StorageNode::new(storage, node)),
                Err(e) => Err(ChildError::Error(StorageNodeError::DeserializeError(e))),
            },
        }
    }

    fn child(&self, key: Key) -> (r: ChildResult<'s, S, Key>)
        ensures
            child_resolved(self.store(), key.key_bytes(), r),
    {
        let hash = key.to_bytes();
        if is_zero(&hash) {
            return Ok(StorageNode::new(self.storage, Node::create_placeholder()));
        }
        let fetched = self.storage.get(&hash);
        StorageNode::from_fetched(self.storage, key, fetched)
    }

    /// The left child: `NodeIsLeaf` for a leaf or placeholder, a placeholder
    /// for a zero hash, else the record the store holds under the hash.
    pub fn left_child(&self) -> (r: ChildResult<'s, S, Key>)
        ensures
            self@.is_leaf() ==> r matches Err(ChildError::NodeIsLeaf),
            !self@.is_leaf() ==> child_resolved(self.store(), self@.bytes_lo, r),
    {
        if self.node.is_leaf() {
            return Err(ChildError::NodeIsLeaf);
        }
        self.child(self.node.left_child_key())
    }

    /// The right child: `NodeIsLeaf` for a leaf or placeholder, a placeholder
    /// for a zero hash, else the record the store holds under the hash.
    pub fn right_child(&self) -> (r: ChildResult<'s, S, Key>)
        ensures
            self@.is_leaf() ==> r matches Err(ChildError::NodeIsLeaf),
            !self@.is_leaf() ==> child_resolved(self.store(), self@.bytes_hi, r),
    {
        if self.node.is_leaf() {
            return Err(ChildError::NodeIsLeaf);
        }
        self.child(self.node.right_child_key())
    }
}

} // verus!
