use sparse_merkle::hash::{sum, Bytes32};
use sparse_merkle::node::{Node, Prefix};
use sparse_merkle::path::{common_path_length, get_instruction, Instruction};

fn key_with_first_byte(b: u8) -> [u8; 32] {
    let mut k = [0u8; 32];
    k[0] = b;
    k
}

#[test]
fn instructions_read_most_significant_bit_first() {
    let key = key_with_first_byte(0b1010_0000);
    assert_eq!(get_instruction(&key, 0), Some(Instruction::Right));
    assert_eq!(get_instruction(&key, 1), Some(Instruction::Left));
    assert_eq!(get_instruction(&key, 2), Some(Instruction::Right));
    assert_eq!(get_instruction(&key, 255), Some(Instruction::Left));
    assert_eq!(get_instruction(&key, 256), None);
    let mut last = [0u8; 32];
    last[31] = 1;
    assert_eq!(get_instruction(&last, 255), Some(Instruction::Right));
}

#[test]
fn common_path_length_of_keys() {
    let a = [0u8; 32];
    assert_eq!(common_path_length(&a, &a), 256);
    assert_eq!(common_path_length(&a, &key_with_first_byte(0x01)), 7);
    assert_eq!(common_path_length(&a, &key_with_first_byte(0x80)), 0);
    let mut b = [0u8; 32];
    b[2] = 0x10;
    assert_eq!(common_path_length(&a, &b), 19);
}

#[test]
fn common_path_length_with_a_placeholder_is_zero() {
    let leaf = Node::<Bytes32>::create_leaf(&key_with_first_byte(0x01), b"data");
    let placeholder = Node::<Bytes32>::create_placeholder();
    assert_eq!(leaf.common_path_length(&placeholder), 0);
    assert_eq!(placeholder.common_path_length(&leaf), 0);
    let zero_key_leaf = Node::<Bytes32>::create_leaf(&[0u8; 32], b"data");
    assert_eq!(zero_key_leaf.common_path_length(&placeholder), 0);
}

#[test]
fn common_path_length_of_two_leaves() {
    let a = Node::<Bytes32>::create_leaf(&key_with_first_byte(0b0001_0000), b"a");
    let b = Node::<Bytes32>::create_leaf(&key_with_first_byte(0b0000_0000), b"b");
    assert_eq!(a.common_path_length(&b), 3);
}

#[test]
fn joining_two_leaves_places_the_parent_where_they_diverge() {
    let path = key_with_first_byte(0b0001_0000);
    let path_leaf = Node::<Bytes32>::create_leaf(&path, b"a");
    let side_leaf = Node::<Bytes32>::create_leaf(&key_with_first_byte(0), b"b");
    let parent = Node::<Bytes32>::create_node_on_path(&path, &path_leaf, &side_leaf);
    assert_eq!(parent.height(), 253);
    assert_eq!(parent.prefix(), Prefix::Node);
    // The path goes right at depth 3.
    assert_eq!(parent.left_child_key(), side_leaf.hash());
    assert_eq!(parent.right_child_key(), path_leaf.hash());
}

#[test]
fn joining_a_leaf_with_a_placeholder_makes_a_root_level_parent() {
    let path = key_with_first_byte(0b0100_0000);
    let leaf = Node::<Bytes32>::create_leaf(&path, b"a");
    let parent = Node::<Bytes32>::create_node_on_path(&path, &leaf, &Node::<Bytes32>::create_placeholder());
    assert_eq!(parent.height(), 256);
    // The path goes left at depth 0.
    assert_eq!(parent.left_child_key(), leaf.hash());
    assert_eq!(parent.right_child_key(), [0u8; 32]);
}

#[test]
fn joining_with_an_internal_node_goes_one_above_the_higher() {
    let path = [0xffu8; 32];
    let l = Node::<Bytes32>::create_leaf(&sum(b"L"), b"l");
    let r = Node::<Bytes32>::create_leaf(&sum(b"R"), b"r");
    let inner = Node::<Bytes32>::create_node(&l, &r, 5);
    let side = Node::<Bytes32>::create_leaf(&sum(b"S"), b"s");
    let parent = Node::<Bytes32>::create_node_on_path(&path, &inner, &side);
    assert_eq!(parent.height(), 6);
    // The path goes right at depth 250.
    assert_eq!(parent.left_child_key(), side.hash());
    assert_eq!(parent.right_child_key(), inner.hash());

    let low = [0u8; 32];
    let high = Node::<Bytes32>::create_node(&l, &r, 9);
    let parent = Node::<Bytes32>::create_node_on_path(&low, &inner, &high);
    assert_eq!(parent.height(), 10);
    assert_eq!(parent.left_child_key(), inner.hash());
    assert_eq!(parent.right_child_key(), high.hash());
}
