//! Asset references as plain values, and how they are read out of the
//! engine's own asset paths.

use bevy::asset::io::AssetSourceId;
use bevy::asset::AssetPath;
use vstd::prelude::*;

verus! {

/// Where an asset's bytes come from.
#[derive(Debug, Clone, PartialEq, Eq, Hash)]
pub enum AssetSource {
    /// The default source: the assets directory on disk.
    Default,
    /// An alternate source, by its name.
    Name(String),
}

impl View for AssetSource {
    type V = Option<Seq<char>>;

    /// `None` for the default source, else the source's name.
    open spec fn view(&self) -> Option<Seq<char>> {
        match self {
            AssetSource::Default => None,
            AssetSource::Name(name) => Some(name@),
        }
    }
}

/// The mathematical content of an [`AssetReference`].
pub struct AssetReferenceView {
    /// `None` for the default source, else the source's name.
    pub source: Option<Seq<char>>,
    /// The path of the asset, relative to its source.
    pub path: Seq<char>,
}

/// A reference to an asset: its source and its path relative to that source.
#[derive(Debug, Clone, PartialEq, Eq, Hash)]
pub struct AssetReference {
    /// The source the asset is loaded from.
    pub source: AssetSource,
    /// The path of the asset, relative to its source.
    pub path: String,
}

impl View for AssetReference {
    type V = AssetReferenceView;

    open spec fn view(&self) -> AssetReferenceView {
        AssetReferenceView { source: self.source@, path: self.path@ }
    }
}

impl AssetReference {
    /// A reference to `path` in the default source.
    pub fn in_default_source(path: String) -> (reference: AssetReference)
        ensures
            reference@.source is None,
            reference@.path == path@,
    {
        AssetReference { source: AssetSource::Default, path }
    }

    /// A reference to `path` in the source called `name`.
    pub fn in_named_source(name: String, path: String) -> (reference: AssetReference)
        ensures
            reference@.source == Some(name@),
            reference@.path == path@,
    {
        AssetReference { source: AssetSource::Name(name), path }
    }
}

/// The engine's `AssetPath`, carried through as a value that nothing is known
/// of: what it holds is read through the functions below.
#[verifier::external_type_specification]
#[verifier::external_body]
pub struct ExAssetPath<'a>(AssetPath<'a>);

/// The source that `AssetPath::source` gives for `asset_path`: `None` for the
/// default source, else the name of the source.
pub uninterp spec fn asset_path_source(asset_path: &AssetPath<'_>) -> Option<Seq<char>>;

/// The path that `AssetPath::path` gives for `asset_path`, as text; a part of
/// it that is not Unicode stands in it as the replacement character.
pub uninterp spec fn asset_path_text(asset_path: &AssetPath<'_>) -> Seq<char>;

/// Calls `AssetPath::source` and hands the source out as a plain value: the
/// default source as it is, a named one with a copy of its name. An asset
/// path is opaque here, so the contract only gives the source a name: it is
/// what the engine's value holds, the same whenever it is asked for.
#[verifier::external_body]
pub(crate) fn asset_source(asset_path: &AssetPath<'_>) -> (source: AssetSource)
    ensures
        source@ == asset_path_source(asset_path),
{
    match asset_path.source() {
        AssetSourceId::Default => AssetSource::Default,
        AssetSourceId::Name(name) => AssetSource::Name(name.to_string()),
    }
}

/// Calls `AssetPath::path` and hands the path out as text; a part of it that
/// is not Unicode comes out as the replacement character. An asset path is
/// opaque here, so the contract only gives the text a name: it is what the
/// engine's value holds, the same whenever it is asked for.
#[verifier::external_body]
pub(crate) fn asset_relative_path(asset_path: &AssetPath<'_>) -> (path: String)
    ensures
        path@ == asset_path_text(asset_path),
{
    asset_path.path().to_string_lossy().into_owned()
}

/// What an asset path of the engine refers to, as plain values: its source
/// and its path, without its label.
pub open spec fn spec_asset_reference(asset_path: &AssetPath<'_>) -> AssetReferenceView {
    AssetReferenceView {
        source: asset_path_source(asset_path),
        path: asset_path_text(asset_path),
    }
}

/// Reads an asset path of the engine into a plain [`AssetReference`]: its
/// source and its path, without its label.
pub fn asset_reference(asset_path: &AssetPath<'_>) -> (reference: AssetReference)
    ensures
        reference@ == spec_asset_reference(asset_path),
{
    AssetReference { source: asset_source(asset_path), path: asset_relative_path(asset_path) }
}

} // verus!
