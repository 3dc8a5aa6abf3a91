//! Everything you need to get started.

pub use crate::provider::{FullAssetPathPlugin, FullAssetPathProvider};
