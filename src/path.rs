//! Keys read as root-to-leaf paths of left/right instructions, most
//! significant bit first.

use crate::hash::Bytes32;
use vstd::prelude::*;

verus! {

/// Number of bits in a key, and so the height of the full tree.
pub const KEY_BITS: usize = 256;

/// One step of a path: go to the left or to the right child.
#[derive(Clone, Copy, Debug, PartialEq, Eq, Structural)]
pub enum Instruction {
    Left,
    Right,
}

/// Bit `i` of `key`, counting from the most significant bit of byte 0.
pub open spec fn bit_at(key: Seq<u8>, i: int) -> u8 {
    (key[i / 8] >> ((7 - i % 8) as u8)) & 1u8
}

/// The instruction that bit `i` of `key` stands for.
pub open spec fn instruction_at(key: Seq<u8>, i: int) -> Instruction {
    if bit_at(key, i) == 0 {
        Instruction::Left
    } else {
        Instruction::Right
    }
}

/// Number of leading bits that `a` and `b` share, counted from bit `i`.
pub open spec fn shared_from(a: Seq<u8>, b: Seq<u8>, i: nat) -> nat
    decreases KEY_BITS - i,
{
    if i >= KEY_BITS || bit_at(a, i as int) != bit_at(b, i as int) {
        i
    } else {
        shared_from(a, b, i + 1)
    }
}

/// Number of leading bits that two keys share.
pub open spec fn common_prefix_len(a: Seq<u8>, b: Seq<u8>) -> nat {
    shared_from(a, b, 0)
}

/// The common prefix is the first position where the keys differ, or the
/// full key length where they agree everywhere.
pub proof fn lemma_common_prefix_len(a: Seq<u8>, b: Seq<u8>)
    ensures
        common_prefix_len(a, b) <= KEY_BITS,
        forall|i: int| 0 <= i < common_prefix_len(a, b) ==> bit_at(a, i) == bit_at(b, i),
        common_prefix_len(a, b) < KEY_BITS ==> bit_at(a, common_prefix_len(a, b) as int)
            != bit_at(b, common_prefix_len(a, b) as int),
{
    lemma_shared_from(a, b, 0);
}

proof fn lemma_shared_from(a: Seq<u8>, b: Seq<u8>, i: nat)
    requires
        i <= KEY_BITS,
    ensures
        i <= shared_from(a, b, i) <= KEY_BITS,
        forall|k: int| i <= k < shared_from(a, b, i) ==> bit_at(a, k) == bit_at(b, k),
        shared_from(a, b, i) < KEY_BITS ==> bit_at(a, shared_from(a, b, i) as int) != bit_at(
            b,
            shared_from(a, b, i) as int,
        ),
    decreases KEY_BITS - i,
{
    if i < KEY_BITS && bit_at(a, i as int) == bit_at(b, i as int) {
        lemma_shared_from(a, b, i + 1);
    }
}

fn get_bit(key: &Bytes32, i: usize) -> (r: u8)
    requires
        i < KEY_BITS,
    ensures
        r == bit_at(key@, i as int),
{
    let shift: u8 = (7 - i % 8) as u8;
    (key[i / 8] >> shift) & 1u8
}

/// The instruction at position `index` of the path `key`, or `None` past
/// its end.
pub fn get_instruction(key: &Bytes32, index: usize) -> (r: Option<Instruction>)
    ensures
        index < KEY_BITS ==> r == Some(instruction_at(key@, index as int)),
        index >= KEY_BITS ==> r is None,
{
    if index >= KEY_BITS {
        None
    } else if get_bit(key, index) == 0 {
        Some(Instruction::Left)
    } else {
        Some(Instruction::Right)
    }
}

/// Number of leading bits that two keys share.
pub fn common_path_length(a: &Bytes32, b: &Bytes32) -> (r: usize)
    ensures
        r == common_prefix_len(a@, b@),
        r <= KEY_BITS,
{
    let mut i: usize = 0;
    while i < KEY_BITS && get_bit(a, i) == get_bit(b, i)
        invariant
            i <= KEY_BITS,
            shared_from(a@, b@, i as nat) == common_prefix_len(a@, b@),
        decreases KEY_BITS - i,
    {
        i = i + 1;
    }
    proof {
        lemma_common_prefix_len(a@, b@);
    }
    i
}

} // verus!
