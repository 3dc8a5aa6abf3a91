//! The provider of full asset paths, and how it is set up.

use crate::asset::{AssetReference, AssetReferenceView, AssetSource};
use crate::paths::{join, spec_is_absolute, spec_join, SEPARATOR};
use vstd::prelude::*;

verus! {

/// The full path of an asset: the base path, extended by the relative assets
/// directory, extended by the asset's own path.
pub open spec fn spec_full_path(base: Seq<char>, assets_dir: Seq<char>, path: Seq<char>) -> Seq<
    char,
> {
    spec_join(spec_join(base, assets_dir), path)
}

/// In the ordinary case the full path is the three parts in a row, with one
/// separator between each two: that is when the assets directory and the
/// asset's path are relative, and neither the base path nor the assets
/// directory is empty or ends in a separator.
pub proof fn lemma_full_path_of_relative_parts(
    base: Seq<char>,
    assets_dir: Seq<char>,
    path: Seq<char>,
)
    requires
        base.len() > 0,
        base.last() != SEPARATOR,
        assets_dir.len() > 0,
        assets_dir.last() != SEPARATOR,
        !spec_is_absolute(assets_dir),
        !spec_is_absolute(path),
    ensures
        spec_full_path(base, assets_dir, path) == base + seq![SEPARATOR] + assets_dir
            + seq![SEPARATOR] + path,
{
    let assets_root = base + seq![SEPARATOR] + assets_dir;
    assert(spec_join(base, assets_dir) == assets_root);
    assert(assets_root.last() == assets_dir.last());
}

/// What resolving `reference` gives: for an asset of the default source its
/// full path, for one of a named source that name, as the error's content.
pub open spec fn spec_resolve(
    base: Seq<char>,
    assets_dir: Seq<char>,
    reference: AssetReferenceView,
) -> Result<Seq<char>, Seq<char>> {
    match reference.source {
        None => Ok(spec_full_path(base, assets_dir, reference.path)),
        Some(name) => Err(name),
    }
}

/// A resolution's outcome as text: the full path, or the name of the source
/// that the error carries.
pub open spec fn spec_outcome(resolved: Result<String, FullAssetPathError>) -> Result<
    Seq<char>,
    Seq<char>,
> {
    match resolved {
        Ok(full_path) => Ok(full_path@),
        Err(error) => Err(error.spec_source_name()),
    }
}

/// Error returned by [`FullAssetPathProvider::full_asset_path`].
#[derive(Debug, Clone, PartialEq, Eq)]
pub enum FullAssetPathError {
    /// The requested asset was not loaded from the default source.
    NonDefaultSource(String),
}

impl FullAssetPathError {
    /// The name of the source that was asked for.
    pub open spec fn spec_source_name(&self) -> Seq<char> {
        match self {
            FullAssetPathError::NonDefaultSource(name) => name@,
        }
    }

    /// The name of the source that was asked for.
    pub fn source_name(&self) -> (name: &str)
        ensures
            name@ == self.spec_source_name(),
    {
        match self {
            FullAssetPathError::NonDefaultSource(name) => name.as_str(),
        }
    }

    /// The error that resolving `reference` gives below any base path: that
    /// of its source, if the source is a named one, and none if it is the
    /// default source. This is all that needs asking before a base path is
    /// looked for.
    pub fn of_reference(reference: &AssetReference) -> (error: Option<FullAssetPathError>)
        ensures
            error is None <==> reference@.source is None,
            error is Some ==> reference@.source == Some(error.unwrap().spec_source_name()),
    {
        match &reference.source {
            AssetSource::Default => None,
            AssetSource::Name(name) => Some(FullAssetPathError::NonDefaultSource(name.clone())),
        }
    }

    /// The error as a sentence for a reader.
    pub fn message(&self) -> (text: String)
        ensures
            text@ == "Asset path is not coming from the default source: "@
                + self.spec_source_name(),
    {
        let mut text = String::from_str("Asset path is not coming from the default source: ");
        text.append(self.source_name());
        text
    }
}

/// Sets up a [`FullAssetPathProvider`] on platforms that load assets from
/// disk.
#[derive(Default)]
#[non_exhaustive]
pub struct FullAssetPathPlugin;

impl FullAssetPathPlugin {
    /// The provider to install, if any. A platform without a filesystem gets
    /// none. One with a filesystem gets a provider for the relative assets
    /// directory that the asset subsystem was configured with, which must be
    /// known by then.
    pub fn build(&self, has_filesystem: bool, assets_dir: Option<String>) -> (provider: Option<
        FullAssetPathProvider,
    >)
        requires
            has_filesystem ==> assets_dir is Some,
        ensures
            provider is Some <==> has_filesystem,
            has_filesystem ==> provider.unwrap()@ == assets_dir.unwrap()@,
    {
        if !has_filesystem {
            return None;
        }
        match assets_dir {
            Some(dir) => Some(FullAssetPathProvider::new(dir)),
            None => None,
        }
    }
}

/// Tells the full path that an asset of the default source is loaded from.
#[derive(Debug, Clone, PartialEq, Eq, Hash)]
pub struct FullAssetPathProvider {
    relative_assets_dir: String,
}

impl View for FullAssetPathProvider {
    type V = Seq<char>;

    /// The relative assets directory.
    closed spec fn view(&self) -> Seq<char> {
        self.relative_assets_dir@
    }
}

impl FullAssetPathProvider {
    /// A provider for assets that lie under `relative_assets_dir`.
    pub fn new(relative_assets_dir: String) -> (provider: FullAssetPathProvider)
        ensures
            provider@ == relative_assets_dir@,
    {
        FullAssetPathProvider { relative_assets_dir }
    }

    /// The relative assets directory.
    pub fn relative_assets_dir(&self) -> (dir: &str)
        ensures
            dir@ == self@,
    {
        self.relative_assets_dir.as_str()
    }

    /// The full path used to load the asset that `asset_path` refers to,
    /// below `base_path`. An asset of a named source has none: the error
    /// carries the source's name, whatever the asset's path and the base path
    /// are. Nothing is read from disk or from the environment.
    pub fn full_asset_path(&self, base_path: &str, asset_path: &AssetReference) -> (resolved: Result<
        String,
        FullAssetPathError,
    >)
        ensures
            spec_outcome(resolved) == spec_resolve(base_path@, self@, asset_path@),
    {
        match FullAssetPathError::of_reference(asset_path) {
            Some(error) => Err(error),
            None => {
                let assets_root = join(base_path, self.relative_assets_dir.as_str());
                Ok(join(assets_root.as_str(), asset_path.path.as_str()))
            },
        }
    }
}

} // verus!
