//! Student registration records: request decoding, server-derived fields,
//! response selection, and in-memory models of the record store and the
//! upload stash.

pub mod form;
pub mod number;
pub mod record;
pub mod reply;
pub mod role;
pub mod stash;
pub mod store;
pub mod text;
