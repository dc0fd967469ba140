//! The shapes of the catalog's answers. A value of these types is never
//! changed once it was received: the session stores it, shows it and hands
//! parts of it back to the catalog as the argument of the next request.

use vstd::prelude::*;

verus! {

/// One hit of a search.
#[derive(Debug, Clone, PartialEq, Eq)]
pub struct SearchResponse {
    pub title: String,
    /// Where the hit's picture is kept. Carried along, never shown.
    pub image_src: String,
    /// The catalog's locator of the hit: the argument of a details request.
    pub path: String,
}

/// What the catalog knows of one hit: a description and the sources it can be
/// had from.
#[derive(Debug, Clone, PartialEq, Eq)]
pub struct DetailResponse {
    pub info: DetailInfo,
    pub download_items: Vec<DownloadItems>,
}

/// One source of a hit.
#[derive(Debug, Clone, PartialEq, Eq)]
pub struct DownloadItems {
    pub file_name: String,
    /// How many peers offer the source, as the catalog words it.
    pub counter: String,
    /// The catalog's locator of the source: the argument of a download
    /// request.
    pub download_key: String,
}

/// The description of a hit.
#[derive(Debug, Clone, PartialEq, Eq)]
pub struct DetailInfo {
    pub runtime: String,
    pub downloads: String,
    pub plot: String,
    pub genres: Vec<String>,
    pub cast: Vec<String>,
}

/// The files of one source.
#[derive(Debug, Clone, PartialEq, Eq)]
pub struct DownloadResponse {
    pub files: Vec<FileItems>,
}

/// One file of a source.
#[derive(Debug, Clone, PartialEq, Eq)]
pub struct FileItems {
    pub name: String,
    pub file_path: String,
    /// How many connections the file has, as the catalog words it.
    pub connections: String,
}

} // verus!
