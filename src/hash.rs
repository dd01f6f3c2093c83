//! Domain digests over byte strings.

use digest::Digest;
use vstd::prelude::*;

verus! {

/// A 32-byte digest.
pub type Bytes32 = [u8; 32];

/// The SHA-256 digest of a byte string.
pub uninterp spec fn sha256_of(data: Seq<u8>) -> Seq<u8>;

/// The reserved all-zero digest.
pub open spec fn zero_digest() -> Seq<u8> {
    Seq::new(32, |_i: int| 0u8)
}

/// The concatenation of all parts, in order, without delimiters.
pub open spec fn joined(parts: Seq<&[u8]>) -> Seq<u8> {
    parts.map_values(|p: &[u8]| p@).flatten()
}

/// Three parts join to their plain concatenation.
pub proof fn lemma_joined_three(parts: Seq<&[u8]>)
    requires
        parts.len() == 3,
    ensures
        joined(parts) == parts[0]@ + parts[1]@ + parts[2]@,
{
    let views = parts.map_values(|p: &[u8]| p@);
    assert(views =~= seq![parts[0]@].push(parts[1]@).push(parts[2]@));
    seq![parts[0]@].lemma_flatten_singleton();
    seq![parts[0]@].lemma_flatten_push(parts[1]@);
    seq![parts[0]@].push(parts[1]@).lemma_flatten_push(parts[2]@);
}

/// Relies on `sha2::Sha256` through `digest::Digest::digest`: the result is
/// the SHA-256 digest of `data`, which depends on the bytes alone.
#[verifier::external_body]
fn sha256(data: &[u8]) -> (r: Bytes32)
    ensures
        r@ == sha256_of(data@),
{
    sha2::Sha256::digest(data).into()
}

/// The fixed all-zero digest that stands for "nothing here".
pub fn zero_sum() -> (r: Bytes32)
    ensures
        r@ == zero_digest(),
{
    let r: Bytes32 = [0u8; 32];
    assert(r@ =~= zero_digest());
    r
}

/// Digest of a single byte string.
pub fn sum(data: &[u8]) -> (r: Bytes32)
    ensures
        r@ == sha256_of(data@),
{
    sha256(data)
}

/// Digest of the concatenation of all parts.
pub fn sum_all(parts: &[&[u8]]) -> (r: Bytes32)
    ensures
        r@ == sha256_of(joined(parts@)),
{
    let mut buf: Vec<u8> = Vec::new();
    let mut i: usize = 0;
    while i < parts.len()
        invariant
            i <= parts@.len(),
            buf@ == joined(parts@.subrange(0, i as int)),
        decreases parts@.len() - i,
    {
        let part: &[u8] = parts[i];
        let ghost before = buf@;
        let mut j: usize = 0;
        while j < part.len()
            invariant
                j <= part@.len(),
                buf@ == before + part@.subrange(0, j as int),
            decreases part@.len() - j,
        {
            buf.push(part[j]);
            j = j + 1;
            assert(buf@ =~= before + part@.subrange(0, j as int));
        }
        proof {
            let done = parts@.subrange(0, i as int);
            let next = parts@.subrange(0, i + 1);
            assert(next =~= done.push(part));
            assert(next.map_values(|p: &[u8]| p@) =~= done.map_values(|p: &[u8]| p@).push(part@));
            done.map_values(|p: &[u8]| p@).lemma_flatten_push(part@);
            assert(part@.subrange(0, j as int) =~= part@);
        }
        i = i + 1;
    }
    assert(parts@.subrange(0, parts@.len() as int) =~= parts@);
    sha256(buf.as_slice())
}

} // verus!
