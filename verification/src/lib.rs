//! Resolution of asset references to full paths on disk, and the decision of
//! which children of a freshly instantiated scene get their coordinate system
//! corrected.

pub mod asset;
pub mod paths;
pub mod prelude;
pub mod provider;
pub mod scene;

pub use provider::{FullAssetPathError, FullAssetPathPlugin, FullAssetPathProvider};
