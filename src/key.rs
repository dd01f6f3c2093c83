//! Key types of the tree: anything that stands for a 32-byte digest.

use crate::hash::Bytes32;
use vstd::prelude::*;

verus! {

/// A key of the tree, convertible to and from the 32-byte digest it stands
/// for.
pub trait MerkleTreeKey: Sized {
    /// The digest this key stands for.
    spec fn key_bytes(&self) -> Seq<u8>;

    fn from_bytes(bytes: Bytes32) -> (r: Self)
        ensures
            r.key_bytes() == bytes@,
    ;

    fn to_bytes(&self) -> (r: Bytes32)
        ensures
            r@ == self.key_bytes(),
    ;
}

impl MerkleTreeKey for Bytes32 {
    open spec fn key_bytes(&self) -> Seq<u8> {
        self@
    }

    fn from_bytes(bytes: Bytes32) -> (r: Bytes32) {
        bytes
    }

    fn to_bytes(&self) -> (r: Bytes32) {
        *self
    }
}

} // verus!
