//! Capacity-bounded record stores: an append-only ledger of posts with
//! store-assigned sequential identifiers, and two upsert-by-hash map stores.
//! Every store enforces a hard capacity ceiling before any mutation, so that
//! its serialized form always fits a fixed, pre-allocated byte budget.

pub mod decentralized_post;
pub mod deepfake_storage;
pub mod originality_storage;
