//! A one-author blog record and the guarded operations that create and
//! overwrite it.
//!
//! The record binds an authority to its latest post and its bio. Every write
//! is checked against that authority, and only well-formed, bounded UTF-8 is
//! ever stored. The host that keeps the records, verifies signatures and
//! collects the log lives outside this crate: it hands in plain values and
//! gets plain values back.

pub mod account;
pub mod error;
pub mod identity;
pub mod laws;
pub mod program;
pub mod text;

pub use account::{
    BlogAccount, Field, RecordView, ACCOUNT_SPACE, HEADER_LEN, MAX_BIO_LEN, MAX_POST_LEN,
};
pub use error::BlogError;
pub use identity::Identity;
pub use program::{initialize, make_post, update_bio, Initialize, MutateAccount};
