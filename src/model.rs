use vstd::prelude::*;

verus! {

/// One search hit of the REST search service.
#[derive(Clone, Debug)]
pub struct SearchResultItem {
    pub id: u32,
    pub title: String,
    pub poster: String,
    /// The score, as the decimal text of the upstream number.
    pub score: String,
    pub episodes: u32,
    pub year: u32,
    pub season: String,
    pub status: String,
    pub kind: String,
    pub session: Option<String>,
}

/// One page of search hits, in the upstream's ranking order, with its
/// pagination metadata. `total` counts all hits, not those on this page.
#[derive(Clone, Debug)]
pub struct SearchResultPage {
    pub data: Vec<SearchResultItem>,
    pub from: u32,
    pub last_page: u32,
    pub per_page: u32,
    pub to: u32,
    pub total: u32,
}

/// A titled block of text for display: heading, body and inline flag.
#[derive(Clone, Debug)]
pub struct DisplayField {
    pub heading: String,
    pub body: String,
    pub inline: bool,
}

/// The title of a media record in its three scripts.
#[derive(Clone, Debug)]
pub struct MediaTitle {
    pub romaji: String,
    pub english: String,
    pub native: String,
}

/// One media record of the GraphQL service.
#[derive(Clone, Debug)]
pub struct MediaRecord {
    pub id: u32,
    pub title: MediaTitle,
    pub kind: String,
    pub description: String,
}

/// What is shown of the best GraphQL match: its title and cleaned description.
#[derive(Clone, Debug)]
pub struct MediaSummary {
    pub id: u32,
    pub title: String,
    pub description: String,
}

/// Why a lookup produced no result.
#[derive(Clone, Debug)]
pub enum FetchError {
    /// The connection failed: refused, timed out or not resolved.
    NetworkError(String),
    /// The upstream answered with a status outside the success range.
    UpstreamStatusError(u16),
    /// The body is not JSON of the expected shape.
    DecodeError(String),
    /// The upstream found no match where one was needed.
    NoResultsError,
}

} // verus!
