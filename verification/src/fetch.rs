//! The requests a session asks its driver to make, and how they may end.

use vstd::prelude::*;
use crate::api::structs::{DetailResponse, DownloadResponse, SearchResponse};

verus! {

/// The three things the catalog can be asked.
#[derive(Debug, Clone, Copy, PartialEq, Eq)]
pub enum FetchKind {
    /// The hits for a query.
    Search,
    /// The details of a hit, by its path.
    Details,
    /// The files of a source, by its download key.
    Download,
}

/// A request to the catalog: what is asked, and of what.
#[derive(Debug, Clone, PartialEq, Eq)]
pub struct Fetch {
    pub kind: FetchKind,
    /// The query text, the hit's path or the source's download key.
    pub argument: String,
}

/// A request with its argument as a sequence of characters.
pub struct FetchView {
    pub kind: FetchKind,
    pub argument: Seq<char>,
}

impl View for Fetch {
    type V = FetchView;

    open spec fn view(&self) -> FetchView {
        FetchView { kind: self.kind, argument: self.argument@ }
    }
}

/// Why a request brought no answer.
#[derive(Debug, Clone, Copy, PartialEq, Eq)]
pub enum FetchError {
    /// The catalog could not be reached, or the exchange broke off.
    Transport,
    /// An answer came that could not be read.
    Malformed,
    /// An answer came to another question than the one that was asked.
    Unexpected,
}

/// How a request ended.
#[derive(Debug, Clone, PartialEq, Eq)]
pub enum FetchOutcome {
    Search(Vec<SearchResponse>),
    Details(DetailResponse),
    Files(DownloadResponse),
    Failed(FetchError),
}

} // verus!
