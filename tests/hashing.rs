use sparse_merkle::hash::{sum, sum_all, zero_sum, Bytes32};
use sparse_merkle::node::{Node, Prefix};

fn from_hex(s: &str) -> [u8; 32] {
    let mut out = [0u8; 32];
    for i in 0..32 {
        out[i] = u8::from_str_radix(&s[2 * i..2 * i + 2], 16).unwrap();
    }
    out
}

#[test]
fn zero_sum_is_all_zero() {
    assert_eq!(zero_sum(), [0u8; 32]);
}

#[test]
fn sum_of_abc_is_the_sha256_digest() {
    let expected = from_hex("ba7816bf8f01cfea414140de5dae2223b00361a396177a9cb410ff61f20015ad");
    assert_eq!(sum(b"abc"), expected);
}

#[test]
fn sum_of_empty_input_is_the_sha256_digest() {
    let expected = from_hex("e3b0c44298fc1c149afbf4c8996fb92427ae41e4649b934ca495991b7852b855");
    assert_eq!(sum(b""), expected);
}

#[test]
fn sum_all_digests_the_concatenation() {
    let parts: [&[u8]; 3] = [b"a", b"", b"bc"];
    assert_eq!(sum_all(&parts), sum(b"abc"));
    let none: [&[u8]; 0] = [];
    assert_eq!(sum_all(&none), sum(b""));
}

#[test]
fn leaf_hash_is_deterministic() {
    let a = Node::<Bytes32>::create_leaf(&sum(b"KEY"), b"some data");
    let b = Node::<Bytes32>::create_leaf(&sum(b"KEY"), b"some data");
    assert_eq!(a.hash(), b.hash());
    let c = Node::<Bytes32>::create_leaf(&sum(b"KEY"), b"other data");
    assert_ne!(a.hash(), c.hash());
}

#[test]
fn leaf_hash_formula_with_explicit_bytes() {
    let key = sum(b"LEAF");
    let leaf = Node::<Bytes32>::create_leaf(&key, &[1u8; 32]);
    let mut bytes = vec![0x00u8];
    bytes.extend_from_slice(&key);
    bytes.extend_from_slice(&sum(&[1u8; 32]));
    assert_eq!(leaf.hash(), sum(&bytes));
    assert_ne!(leaf.hash(), zero_sum());
}

#[test]
fn node_hash_formula_with_explicit_bytes() {
    let left = Node::<Bytes32>::create_leaf(&sum(b"LEFT CHILD"), &[1u8; 32]);
    let right = Node::<Bytes32>::create_leaf(&sum(b"RIGHT CHILD"), &[1u8; 32]);
    let node = Node::<Bytes32>::create_node(&left, &right, 1);
    let mut bytes = vec![0x01u8];
    bytes.extend_from_slice(&left.hash());
    bytes.extend_from_slice(&right.hash());
    assert_eq!(node.hash(), sum(&bytes));
}

#[test]
fn any_zero_payload_is_a_placeholder() {
    let leaf_tagged = Node::<Bytes32>::new(7, Prefix::Leaf, [0u8; 32], [0u8; 32]);
    assert!(leaf_tagged.is_placeholder());
    assert!(leaf_tagged.is_leaf());
    assert!(!leaf_tagged.is_node());
    assert_eq!(leaf_tagged.hash(), zero_sum());
    let node_tagged = Node::<Bytes32>::new(200, Prefix::Node, [0u8; 32], [0u8; 32]);
    assert!(node_tagged.is_placeholder());
    assert!(!node_tagged.is_node());
    assert_eq!(node_tagged.hash(), zero_sum());
    assert_eq!(Node::<Bytes32>::create_placeholder().hash(), zero_sum());
}

#[test]
fn half_zero_payload_is_not_a_placeholder() {
    let mut hi = [0u8; 32];
    hi[31] = 1;
    let node = Node::<Bytes32>::new(1, Prefix::Node, [0u8; 32], hi);
    assert!(!node.is_placeholder());
    assert!(node.is_node());
    assert_ne!(node.hash(), zero_sum());
}

#[test]
fn getters_return_the_fields() {
    let node = Node::<Bytes32>::new(9, Prefix::Node, [3u8; 32], [4u8; 32]);
    assert_eq!(node.height(), 9);
    assert_eq!(node.prefix(), Prefix::Node);
    assert_eq!(*node.bytes_lo(), [3u8; 32]);
    assert_eq!(*node.bytes_hi(), [4u8; 32]);
    assert_eq!(Node::<Bytes32>::max_height(), 256);
}
