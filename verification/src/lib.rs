//! Decoding of BitTorrent metainfo into a typed model, and a plain-text
//! summary of the decoded model.
//!
//! A metainfo file is bencode. [`torrent::Torrent::from_bytes`] hands its
//! bytes to the bencode decoder, maps the tree that comes back onto the
//! torrent schema, and returns the torrent or the reason why there is none.
//! [`torrent::Torrent::render`] writes the report on a torrent.
//!
//! - [`bencode`]: the generic tree of bencoded values, and the decoder.
//! - [`schema`]: typed reading of the value under a key.
//! - [`helpers`]: the converters of the fields that need one.
//! - [`torrent`]: the model, its mapping from a tree, and its report.
//! - [`metainfo`]: tracker URLs that are checked to be absolute URLs.
//! - [`text`]: numerals, padding and UTF-8.
//! - [`laws`]: what holds of loading, whatever the input.

pub mod bencode;
pub mod helpers;
pub mod laws;
pub mod metainfo;
pub mod schema;
pub mod text;
pub mod torrent;
