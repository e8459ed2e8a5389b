//! Helpers of the metainfo mapping.

pub mod deserialize;
