//! Loading an asset: where to look for it, and what to make of the attempt.
//!
//! Reading directories and files is the caller's work. On a desktop it
//! searches for the asset folder near the working directory, in the order and
//! within the bounds of [`search_policy`], and reads the file inside it; on a device that ships
//! its assets in a bundle it asks the bundle by file name. Either way it
//! reports how far it came as a [`LoadReport`], and [`resolve`] says what the
//! loader returns.

use vstd::prelude::*;
use crate::error::FatalError;

verus! {

/// How many levels of child directories the search for the asset folder
/// descends.
pub const KIDS_DEPTH: u8 = 3;

/// How many levels of parent directories the search for the asset folder
/// climbs, once the children held no such folder.
pub const PARENTS_DEPTH: u8 = 5;

/// Which way the search for the asset folder goes first.
#[derive(Clone, Copy, Debug, PartialEq, Eq, Structural)]
pub enum SearchOrder {
    /// The starting directory and its descendants are searched first, and its
    /// ancestors only where those hold no such folder. A folder below the
    /// starting directory is therefore chosen over one above it.
    KidsThenParents,
    /// The starting directory and its ancestors are searched first, and its
    /// descendants only where those hold no such folder.
    ParentsThenKids,
}

/// How the asset folder is searched for: in which order, and how far each
/// way.
#[derive(Clone, Copy, Debug, PartialEq, Eq, Structural)]
pub struct SearchPolicy {
    pub order: SearchOrder,
    pub kids_depth: u8,
    pub parents_depth: u8,
}

/// The policy of the loader: children first, three levels down, then parents,
/// five levels up.
pub open spec fn loader_policy() -> SearchPolicy {
    SearchPolicy {
        order: SearchOrder::KidsThenParents,
        kids_depth: KIDS_DEPTH,
        parents_depth: PARENTS_DEPTH,
    }
}

/// The order and the bounds that the loader searches by.
pub fn search_policy() -> (policy: SearchPolicy)
    ensures
        policy == loader_policy(),
        policy.order == SearchOrder::KidsThenParents,
        policy.kids_depth == 3,
        policy.parents_depth == 5,
{
    SearchPolicy {
        order: SearchOrder::KidsThenParents,
        kids_depth: KIDS_DEPTH,
        parents_depth: PARENTS_DEPTH,
    }
}

/// The name of the folder that holds the assets.
pub fn asset_folder() -> (name: &'static str)
    ensures
        name@ == "assets"@,
{
    "assets"
}

/// Why the loader returned no bytes.
#[derive(Clone, Copy, Debug, PartialEq, Eq, Structural)]
pub enum LoadError {
    /// There is no such asset within the bounds of the search.
    NotFound,
    /// The asset is there, or may be, and could not be read.
    ReadError,
}

impl LoadError {
    /// The fatal failure that a failed load amounts to. Whatever the kind,
    /// the program is left without a mandatory asset.
    pub fn fatal(self) -> (failure: FatalError)
        ensures
            failure == FatalError::AssetNotFound,
    {
        FatalError::AssetNotFound
    }
}

/// How far one attempt to load an asset came.
#[derive(Debug, PartialEq, Eq)]
pub enum LoadReport {
    /// No folder of the right name lies within the bounds of the search.
    FolderNotFound,
    /// The search itself failed on a directory that it could not read.
    SearchFailed,
    /// The folder, or the bundle, holds no asset of that name.
    FileNotFound,
    /// The asset is there and opening or reading it failed.
    FileUnreadable,
    /// The asset was read to its end; these are its bytes.
    Read(Vec<u8>),
}

impl LoadReport {
    /// What the loader returns for a report, over the bytes that were read.
    pub open spec fn outcome(self) -> Result<Seq<u8>, LoadError> {
        match self {
            LoadReport::FolderNotFound => Err(LoadError::NotFound),
            LoadReport::SearchFailed => Err(LoadError::ReadError),
            LoadReport::FileNotFound => Err(LoadError::NotFound),
            LoadReport::FileUnreadable => Err(LoadError::ReadError),
            LoadReport::Read(bytes) => Ok(bytes@),
        }
    }
}

/// Turns the report of an attempt into the loader's result: the bytes as they
/// were read, none added, dropped or changed, or the kind of the failure.
pub fn resolve(report: LoadReport) -> (loaded: Result<Vec<u8>, LoadError>)
    ensures
        match report.outcome() {
            Ok(bytes) => loaded matches Ok(v) && v@ == bytes,
            Err(e) => loaded == Err::<Vec<u8>, LoadError>(e),
        },
{
    match report {
        LoadReport::FolderNotFound => Err(LoadError::NotFound),
        LoadReport::SearchFailed => Err(LoadError::ReadError),
        LoadReport::FileNotFound => Err(LoadError::NotFound),
        LoadReport::FileUnreadable => Err(LoadError::ReadError),
        LoadReport::Read(bytes) => Ok(bytes),
    }
}

} // verus!
