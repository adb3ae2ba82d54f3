//! A scoped, typed iteration layer over a snapshot-aware B-tree keyspace.
//!
//! The storage engine is an outside collaborator. This crate holds what the
//! layer itself decides: how positions are ordered, how the engine's one
//! overloaded reply word is told apart into key, end of range and error, and
//! how an iterator's state moves under `peek` and `advance`.
//!
//! An iterator borrows its transaction context, and a context borrows its
//! store, so neither can be used once what it was opened on is gone.

pub mod bpos;
pub mod btree;
pub mod errcode;
pub mod flags;
pub mod laws;

pub use bpos::Bpos;
pub use btree::{BkeySC, BtreeId, BtreeIter, BtreeTrans, Fs, IterState, RawKey};
pub use errcode::Errcode;
pub use flags::{BtreeIterFlag, BtreeIterFlags};
