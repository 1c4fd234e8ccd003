//! Chain queries over a validator's read-only state: which lookups a query makes, what it decides
//! from each reply, and what it finally answers.
//!
//! Nothing here talks to a validator. A query starts with a call that returns its first step; a
//! step asks for a lookup, and the reply to it is handed back together with the query's state.

pub mod block;
pub mod block_data;
pub mod block_header;
pub mod chain_info;
pub mod error;
pub mod network;
pub mod requests;
pub mod service;
pub mod text;
pub mod trees;
