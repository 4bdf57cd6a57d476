//! A transactional document model over a tree of components: documents are
//! read and written through a transaction that resolves tables, checks sizes
//! and identities, and keeps account of what was read.

pub mod batch;
pub mod components;
pub mod document;
pub mod errors;
pub mod json;
pub mod laws;
pub mod metadata;
pub mod paths;
pub mod scan;
pub mod search;
pub mod storage;
pub mod store;
pub mod text;
pub mod transaction;
pub mod tree;
pub mod types;
pub mod user_facing;
pub mod validation;
pub mod value;
pub mod virtual_tables;
