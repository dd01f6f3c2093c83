use sparse_merkle::error::{DeserializeError, PrefixError};
use sparse_merkle::hash::{sum, Bytes32};
use sparse_merkle::node::{Node, Prefix};
use sparse_merkle::primitive::{decode, encode, Primitive};

fn assert_round_trip(node: &Node<Bytes32>) {
    let back = decode::<Bytes32>(encode(node)).unwrap();
    assert_eq!(back.hash(), node.hash());
    assert_eq!(back.height(), node.height());
    assert_eq!(back.prefix(), node.prefix());
    assert_eq!(back.is_leaf(), node.is_leaf());
    assert_eq!(back.is_node(), node.is_node());
    assert_eq!(back.bytes_lo(), node.bytes_lo());
    assert_eq!(back.bytes_hi(), node.bytes_hi());
}

#[test]
fn decode_of_encode_gives_back_the_node() {
    let leaf = Node::<Bytes32>::create_leaf(&sum(b"LEAF"), &[1u8; 32]);
    let other = Node::<Bytes32>::create_leaf(&sum(b"OTHER"), &[2u8; 32]);
    assert_round_trip(&leaf);
    assert_round_trip(&Node::<Bytes32>::create_node(&leaf, &other, 77));
    assert_round_trip(&Node::<Bytes32>::create_placeholder());
    assert_round_trip(&Node::<Bytes32>::new(u32::MAX, Prefix::Leaf, [9u8; 32], [0u8; 32]));
}

#[test]
fn tag_ff_is_rejected_whatever_the_rest() {
    let cases: [Primitive; 3] = [
        (0, 0xff, [0u8; 32], [0u8; 32]),
        (256, 0xff, [1u8; 32], [2u8; 32]),
        (u32::MAX, 0xff, [0xffu8; 32], [0u8; 32]),
    ];
    for p in cases {
        assert_eq!(
            decode::<Bytes32>(p).unwrap_err(),
            DeserializeError::PrefixError(PrefixError::InvalidPrefix(0xff))
        );
    }
}

#[test]
fn tag_two_is_rejected() {
    assert_eq!(
        decode::<Bytes32>((1, 2, [1u8; 32], [1u8; 32])).unwrap_err(),
        DeserializeError::PrefixError(PrefixError::InvalidPrefix(2))
    );
}

#[test]
fn all_zero_primitive_decodes_to_a_placeholder() {
    let node = decode::<Bytes32>((0, 0, [0u8; 32], [0u8; 32])).unwrap();
    assert!(node.is_placeholder());
    assert!(node.is_leaf());
}

#[test]
fn prefix_tags() {
    assert_eq!(Prefix::Leaf.tag(), 0);
    assert_eq!(Prefix::Node.tag(), 1);
    assert_eq!(Prefix::from_tag(0), Ok(Prefix::Leaf));
    assert_eq!(Prefix::from_tag(1), Ok(Prefix::Node));
    assert_eq!(Prefix::from_tag(7), Err(PrefixError::InvalidPrefix(7)));
}
