//! A minimal blogging data model kept as records in an address-keyed ledger.
//!
//! A `Blog` owns many `BlogPost`s and a `BlogPost` owns many `Comment`s;
//! parent/child links are not stored as pointers but recovered by
//! deterministic address derivation from logical keys (owner and title, or
//! parent and author).  The `Ledger` type carries the records and offers the
//! six lifecycle operations: initialize a blog, create/update/delete a post,
//! add/delete a comment.  Every operation either applies in full or rejects
//! before any change is visible, and each rejection is pinned down in the
//! operation's contract.

pub mod auth;
pub mod counter;
pub mod crypto;
pub mod errors;
pub mod laws;
pub mod ledger;
pub mod states;
pub mod store;
