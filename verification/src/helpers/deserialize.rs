//! Converters for the fields whose bencoded form is not their form in the
//! model.

pub mod serde_announce_list;
pub mod serde_datetime;
pub mod serde_pathbuf;
