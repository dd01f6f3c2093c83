//! A sparse binary Merkle tree core: node model, fixed-width node codec,
//! bit-path joining, and lazy child resolution through a content-addressed
//! key/value store.

pub mod context;
pub mod error;
pub mod hash;
pub mod key;
pub mod node;
pub mod path;
pub mod primitive;
pub mod storage;
pub mod storage_node;
