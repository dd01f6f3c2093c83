//! Nodes of the sparse Merkle tree: placeholders, leaves and internal nodes,
//! all of one fixed shape, and the joining of two subtrees along a path.

use crate::error::PrefixError;
use crate::hash::{lemma_joined_three, sha256_of, sum, sum_all, zero_digest, zero_sum, Bytes32};
use crate::key::MerkleTreeKey;
use crate::path::{common_path_length, common_prefix_len, get_instruction, instruction_at, Instruction, KEY_BITS};
use core::marker::PhantomData;
use vstd::prelude::*;

verus! {

/// Tells how the two payload fields of a node are read.
#[derive(Clone, Copy, Debug, PartialEq, Eq, Structural)]
pub enum Prefix {
    Leaf,
    Node,
}

/// The byte that stands for a prefix in hashes and in the stored form.
pub open spec fn prefix_tag(p: Prefix) -> u8 {
    match p {
        Prefix::Leaf => 0u8,
        Prefix::Node => 1u8,
    }
}

impl Prefix {
    /// The tag byte of this prefix.
    pub fn tag(&self) -> (r: u8)
        ensures
            r == prefix_tag(*self),
    {
        match self {
            Prefix::Leaf => 0u8,
            Prefix::Node => 1u8,
        }
    }

    /// The prefix that a tag byte names.
    pub fn from_tag(byte: u8) -> (r: Result<Prefix, PrefixError>)
        ensures
            byte == 0 ==> r == Ok::<Prefix, PrefixError>(Prefix::Leaf),
            byte == 1 ==> r == Ok::<Prefix, PrefixError>(Prefix::Node),
            byte > 1 ==> r == Err::<Prefix, PrefixError>(PrefixError::InvalidPrefix(byte)),
    {
        if byte == 0 {
            Ok(Prefix::Leaf)
        } else if byte == 1 {
            Ok(Prefix::Node)
        } else {
            Err(PrefixError::InvalidPrefix(byte))
        }
    }
}

/// What a node is, mathematically.
pub struct NodeView {
    pub height: u32,
    pub prefix: Prefix,
    pub bytes_lo: Seq<u8>,
    pub bytes_hi: Seq<u8>,
}

impl NodeView {
    /// Both payload fields are the zero digest, whatever the tag and height.
    pub open spec fn is_placeholder(self) -> bool {
        self.bytes_lo == zero_digest() && self.bytes_hi == zero_digest()
    }

    /// A true leaf, or a placeholder.
    pub open spec fn is_leaf(self) -> bool {
        self.prefix == Prefix::Leaf || self.is_placeholder()
    }

    /// A genuine internal node, with a non-zero payload.
    pub open spec fn is_node(self) -> bool {
        self.prefix == Prefix::Node && !self.is_placeholder()
    }

    /// The zero digest for a placeholder; otherwise the digest of the tag
    /// byte followed by both payload fields.
    pub open spec fn hash(self) -> Seq<u8> {
        if self.is_placeholder() {
            zero_digest()
        } else {
            sha256_of(seq![prefix_tag(self.prefix)] + self.bytes_lo + self.bytes_hi)
        }
    }
}

/// The placeholder: height 0, internal tag by convention, zero payload.
pub open spec fn placeholder_view() -> NodeView {
    NodeView { height: 0, prefix: Prefix::Node, bytes_lo: zero_digest(), bytes_hi: zero_digest() }
}

/// The leaf for `key` whose data is `data`.
pub open spec fn leaf_view(key: Seq<u8>, data: Seq<u8>) -> NodeView {
    NodeView { height: 0, prefix: Prefix::Leaf, bytes_lo: key, bytes_hi: sha256_of(data) }
}

/// The internal node at `height` over two children.
pub open spec fn internal_view(left: NodeView, right: NodeView, height: u32) -> NodeView {
    NodeView { height, prefix: Prefix::Node, bytes_lo: left.hash(), bytes_hi: right.hash() }
}

/// Leading key bits that two leaf-classified nodes share; zero where either
/// is a placeholder.
pub open spec fn shared_path(a: NodeView, b: NodeView) -> nat {
    if a.is_placeholder() || b.is_placeholder() {
        0
    } else {
        common_prefix_len(a.bytes_lo, b.bytes_lo)
    }
}

/// Height of the node that joins `path_node` and `side_node`.
pub open spec fn join_height(path_node: NodeView, side_node: NodeView) -> int {
    if path_node.is_leaf() && side_node.is_leaf() {
        KEY_BITS - shared_path(path_node, side_node)
    } else if path_node.height >= side_node.height {
        path_node.height + 1
    } else {
        side_node.height + 1
    }
}

/// The joining can be done: the path has an instruction at the depth of the
/// joining node.
pub open spec fn can_join(path_node: NodeView, side_node: NodeView) -> bool {
    0 < join_height(path_node, side_node) <= KEY_BITS
}

/// The node that joins `path_node` and `side_node` on the path `path`:
/// `path_node` goes left where the path goes left at the joining depth.
pub open spec fn join_on_path(path: Seq<u8>, path_node: NodeView, side_node: NodeView) -> NodeView {
    let height = join_height(path_node, side_node);
    if instruction_at(path, KEY_BITS - height) == Instruction::Left {
        internal_view(path_node, side_node, height as u32)
    } else {
        internal_view(side_node, path_node, height as u32)
    }
}

/// A leaf's hash is a function of its key and data alone: leaves made from
/// equal keys and equal data hash equally.
pub proof fn lemma_leaf_hash_deterministic(key1: Seq<u8>, data1: Seq<u8>, key2: Seq<u8>, data2: Seq<u8>)
    requires
        key1 == key2,
        data1 == data2,
    ensures
        leaf_view(key1, data1).hash() == leaf_view(key2, data2).hash(),
{
}

/// The placeholder hashes to the zero digest, and any node whose two payload
/// fields are the zero digest is a placeholder, whatever its tag and height.
pub proof fn lemma_placeholder_canonical(v: NodeView)
    ensures
        placeholder_view().is_placeholder(),
        placeholder_view().hash() == zero_digest(),
        v.bytes_lo == zero_digest() && v.bytes_hi == zero_digest() ==> v.is_placeholder()
            && v.hash() == zero_digest(),
{
}

/// A placeholder shares no path with any leaf, even one whose key starts
/// with zero bits.
pub proof fn lemma_placeholder_diverges(leaf: NodeView, placeholder: NodeView)
    requires
        leaf.is_leaf(),
        placeholder.is_placeholder(),
    ensures
        shared_path(leaf, placeholder) == 0,
        shared_path(placeholder, leaf) == 0,
{
}

/// Whether a digest is the zero digest.
pub fn is_zero(d: &Bytes32) -> (r: bool)
    ensures
        r == (d@ == zero_digest()),
{
    let mut i: usize = 0;
    while i < 32
        invariant
            i <= 32,
            forall|k: int| 0 <= k < i ==> d@[k] == 0,
        decreases 32 - i,
    {
        if d[i] != 0 {
            assert(zero_digest()[i as int] == 0);
            return false;
        }
        i = i + 1;
    }
    assert(d@ =~= zero_digest());
    true
}

/// A node of the tree, for keys of type `Key`. Its identity in the store is
/// its `hash`.
#[derive(Debug)]
pub struct Node<Key> {
    height: u32,
    prefix: Prefix,
    bytes_lo: Bytes32,
    bytes_hi: Bytes32,
    key: PhantomData<Key>,
}

impl<Key> View for Node<Key> {
    type V = NodeView;

    closed spec fn view(&self) -> NodeView {
        NodeView {
            height: self.height,
            prefix: self.prefix,
            bytes_lo: self.bytes_lo@,
            bytes_hi: self.bytes_hi@,
        }
    }
}

impl<Key> Clone for Node<Key> {
    fn clone(&self) -> (r: Node<Key>)
        ensures
            r@ == self@,
    {
        Node {
            height: self.height,
            prefix: self.prefix,
            bytes_lo: self.bytes_lo,
            bytes_hi: self.bytes_hi,
            key: PhantomData,
        }
    }
}

impl<Key> Copy for Node<Key> {}

impl<Key> Default for Node<Key> {
    fn default() -> (r: Node<Key>)
        ensures
            r@ == placeholder_view(),
    {
        Node {
            height: 0,
            prefix: Prefix::Node,
            bytes_lo: zero_sum(),
            bytes_hi: zero_sum(),
            key: PhantomData,
        }
    }
}

impl<Key: MerkleTreeKey> Node<Key> {
    /// Height of the full tree: the bit length of a key.
    pub fn max_height() -> (r: usize)
        ensures
            r == KEY_BITS,
    {
        KEY_BITS
    }

    /// A node from its four fields.
    pub fn new(height: u32, prefix: Prefix, bytes_lo: Bytes32, bytes_hi: Bytes32) -> (r: Node<Key>)
        ensures
            r@ == (NodeView { height, prefix, bytes_lo: bytes_lo@, bytes_hi: bytes_hi@ }),
    {
        Node { height, prefix, bytes_lo, bytes_hi, key: PhantomData }
    }

    /// The leaf for `key` holding a commitment to `data`.
    pub fn create_leaf(key: &Bytes32, data: &[u8]) -> (r: Node<Key>)
        ensures
            r@ == leaf_view(key@, data@),
    {
        Node {
            height: 0,
            prefix: Prefix::Leaf,
            bytes_lo: *key,
            bytes_hi: sum(data),
            key: PhantomData,
        }
    }

    /// The internal node at `height` whose children are `left_child` and
    /// `right_child`.
    pub fn create_node(left_child: &Node<Key>, right_child: &Node<Key>, height: u32) -> (r: Node<Key>)
        ensures
            r@ == internal_view(left_child@, right_child@, height),
    {
        Node {
            height,
            prefix: Prefix::Node,
            bytes_lo: left_child.hash(),
            bytes_hi: right_child.hash(),
            key: PhantomData,
        }
    }

    /// The placeholder node.
    pub fn create_placeholder() -> (r: Node<Key>)
        ensures
            r@ == placeholder_view(),
    {
        Node::default()
    }

    /// The node joining `path_node` and `side_node` on the path `path`: the
    /// divergence point of two leaves, or else the direct parent of the
    /// higher of the two.
    pub fn create_node_on_path(path: &Bytes32, path_node: &Node<Key>, side_node: &Node<Key>) -> (r: Node<Key>)
        requires
            can_join(path_node@, side_node@),
        ensures
            r@ == join_on_path(path@, path_node@, side_node@),
    {
        let parent_height: u32;
        if path_node.is_leaf() && side_node.is_leaf() {
            let parent_depth = path_node.common_path_length(side_node);
            parent_height = (Self::max_height() - parent_depth) as u32;
        } else {
            let higher: u32 = if path_node.height() >= side_node.height() {
                path_node.height()
            } else {
                side_node.height()
            };
            parent_height = higher + 1;
        }
        let parent_depth: usize = Self::max_height() - parent_height as usize;
        match get_instruction(path, parent_depth) {
            Some(Instruction::Left) => Self::create_node(path_node, side_node, parent_height),
            _ => Self::create_node(side_node, path_node, parent_height),
        }
    }

    /// Leading key bits that two leaf-classified nodes share; zero where
    /// either is a placeholder, so that a zero key never matches.
    pub fn common_path_length(&self, other: &Node<Key>) -> (r: usize)
        requires
            self@.is_leaf(),
            other@.is_leaf(),
        ensures
            r == shared_path(self@, other@),
            r <= KEY_BITS,
    {
        if self.is_placeholder() || other.is_placeholder() {
            0
        } else {
            common_path_length(&self.leaf_key().to_bytes(), &other.leaf_key().to_bytes())
        }
    }

    pub fn height(&self) -> (r: u32)
        ensures
            r == self@.height,
    {
        self.height
    }

    pub fn prefix(&self) -> (r: Prefix)
        ensures
            r == self@.prefix,
    {
        self.prefix
    }

    pub fn bytes_lo(&self) -> (r: &Bytes32)
        ensures
            r@ == self@.bytes_lo,
    {
        &self.bytes_lo
    }

    pub fn bytes_hi(&self) -> (r: &Bytes32)
        ensures
            r@ == self@.bytes_hi,
    {
        &self.bytes_hi
    }

    pub fn is_placeholder(&self) -> (r: bool)
        ensures
            r == self@.is_placeholder(),
    {
        is_zero(&self.bytes_lo) && is_zero(&self.bytes_hi)
    }

    pub fn is_leaf(&self) -> (r: bool)
        ensures
            r == self@.is_leaf(),
    {
        self.prefix == Prefix::Leaf || self.is_placeholder()
    }

    pub fn is_node(&self) -> (r: bool)
        ensures
            r == self@.is_node(),
    {
        self.prefix == Prefix::Node && !self.is_placeholder()
    }

    /// The key of a leaf.
    pub fn leaf_key(&self) -> (r: Key)
        requires
            self@.is_leaf(),
        ensures
            r.key_bytes() == self@.bytes_lo,
    {
        Key::from_bytes(self.bytes_lo)
    }

    /// The digest of a leaf's data.
    pub fn leaf_data(&self) -> (r: Key)
        requires
            self@.is_leaf(),
        ensures
            r.key_bytes() == self@.bytes_hi,
    {
        Key::from_bytes(self.bytes_hi)
    }

    /// The hash of an internal node's left child.
    pub fn left_child_key(&self) -> (r: Key)
        requires
            self@.is_node(),
        ensures
            r.key_bytes() == self@.bytes_lo,
    {
        Key::from_bytes(self.bytes_lo)
    }

    /// The hash of an internal node's right child.
    pub fn right_child_key(&self) -> (r: Key)
        requires
            self@.is_node(),
        ensures
            r.key_bytes() == self@.bytes_hi,
    {
        Key::from_bytes(self.bytes_hi)
    }

    /// The node's digest: zero for a placeholder, else the digest of its tag
    /// and payload.
    pub fn hash(&self) -> (r: Bytes32)
        ensures
            r@ == self@.hash(),
    {
        if self.is_placeholder() {
            zero_sum()
        } else {
            let tag: [u8; 1] = [self.prefix.tag()];
            let parts: [&[u8]; 3] = [tag.as_slice(), self.bytes_lo.as_slice(), self.bytes_hi.as_slice()];
            let r = sum_all(parts.as_slice());
            proof {
                lemma_joined_three(parts@);
                assert(tag@ =~= seq![prefix_tag(self.prefix)]);
            }
            r
        }
    }
}

} // verus!
