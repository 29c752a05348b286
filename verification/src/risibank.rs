//! The sticker catalog: what it returns, how it is asked, and how its
//! answers are read.
//!
//! Nothing here touches the network. A search is a short exchange between
//! [`Risibank::search`], which decides, and a caller that sends the request
//! and reports what came back.

use crate::status::{status_line, HttpStatus};
use vstd::prelude::*;
use vstd::string::StringExecFns;

verus! {

/// Where the catalog is reached unless told otherwise.
pub const API_BASE_URL: &'static str = "https://risibank.fr/api/v0";

/// One entry of a catalog response.
#[derive(Debug, Clone, PartialEq, Eq)]
pub struct Sticker {
    /// Where the media asset lives.
    pub risibank_link: String,
    /// The catalog's identifier of the entry, unique within a response.
    pub id: u64,
    /// The file-extension token of the asset.
    pub ext: String,
}

/// A sticker as contracts see it.
pub struct StickerView {
    pub risibank_link: Seq<char>,
    pub id: nat,
    pub ext: Seq<char>,
}

impl View for Sticker {
    type V = StickerView;

    open spec fn view(&self) -> StickerView {
        StickerView { risibank_link: self.risibank_link@, id: self.id as nat, ext: self.ext@ }
    }
}

/// A catalog response: the stickers found, in the order the catalog gave them.
#[derive(Debug, Clone, PartialEq, Eq)]
pub struct RisibankSearchResult {
    pub stickers: Vec<Sticker>,
}

impl View for RisibankSearchResult {
    type V = Seq<StickerView>;

    open spec fn view(&self) -> Seq<StickerView> {
        self.stickers@.map_values(|s: Sticker| s@)
    }
}

/// Why a search gave no catalog response.
#[derive(Debug, Clone, PartialEq, Eq)]
pub enum RisibankError {
    /// The request did not get through, or the response could not be read.
    Transport(String),
    /// The catalog refused the request for coming too often.
    RateLimit,
    /// The catalog answered with something that is no catalog response.
    InvalidResponse(String),
}

pub enum RisibankErrorView {
    Transport(Seq<char>),
    RateLimit,
    InvalidResponse(Seq<char>),
}

impl View for RisibankError {
    type V = RisibankErrorView;

    open spec fn view(&self) -> RisibankErrorView {
        match self {
            RisibankError::Transport(detail) => RisibankErrorView::Transport(detail@),
            RisibankError::RateLimit => RisibankErrorView::RateLimit,
            RisibankError::InvalidResponse(detail) => RisibankErrorView::InvalidResponse(detail@),
        }
    }
}

impl RisibankErrorView {
    /// The error in words.
    pub open spec fn message(self) -> Seq<char> {
        match self {
            RisibankErrorView::Transport(detail) => "HTTP request failed: "@ + detail,
            RisibankErrorView::RateLimit => "Rate limit exceeded"@,
            RisibankErrorView::InvalidResponse(detail) => "Invalid response format: "@ + detail,
        }
    }
}

impl RisibankError {
    /// The error for a response whose status promises no catalog response,
    /// `status_text` being that status as text.
    pub fn unexpected_status(status_text: &str) -> (error: RisibankError)
        ensures
            error@ == RisibankErrorView::InvalidResponse(
                "Unexpected status code: "@ + status_text@,
            ),
    {
        let mut detail = String::from_str("Unexpected status code: ");
        detail.append(status_text);
        RisibankError::InvalidResponse(detail)
    }

    /// The error in words.
    pub fn message(&self) -> (text: String)
        ensures
            text@ == self@.message(),
    {
        match self {
            RisibankError::Transport(detail) => {
                let mut text = String::from_str("HTTP request failed: ");
                text.append(detail.as_str());
                text
            },
            RisibankError::RateLimit => String::from_str("Rate limit exceeded"),
            RisibankError::InvalidResponse(detail) => {
                let mut text = String::from_str("Invalid response format: ");
                text.append(detail.as_str());
                text
            },
        }
    }
}

/// The view of what a search ends in.
pub open spec fn outcome_view(outcome: Result<RisibankSearchResult, RisibankError>) -> Result<
    Seq<StickerView>,
    RisibankErrorView,
> {
    match outcome {
        Ok(found) => Ok(found@),
        Err(error) => Err(error@),
    }
}

/// A request to the catalog: an HTTP GET of `url` with the pairs of `query`
/// as its query string and no body.
#[derive(Debug, Clone, PartialEq, Eq)]
pub struct SearchRequest {
    pub url: String,
    pub query: Vec<(String, String)>,
}

pub struct SearchRequestView {
    pub url: Seq<char>,
    pub query: Seq<(Seq<char>, Seq<char>)>,
}

impl View for SearchRequest {
    type V = SearchRequestView;

    open spec fn view(&self) -> SearchRequestView {
        SearchRequestView {
            url: self.url@,
            query: self.query@.map_values(|pair: (String, String)| (pair.0@, pair.1@)),
        }
    }
}

/// What has happened in a search so far.
#[derive(Debug, PartialEq, Eq)]
pub enum SearchEvent {
    /// A search for this text was asked for.
    Asked(String),
    /// The request or the reading of its response failed; the text says how.
    Failed(String),
    /// A response arrived with this status.
    Responded(HttpStatus),
    /// The body of the response was decoded, or could not be; the text says why.
    Decoded(Result<RisibankSearchResult, String>),
}

pub enum SearchEventView {
    Asked(Seq<char>),
    Failed(Seq<char>),
    Responded(nat),
    Decoded(Result<Seq<StickerView>, Seq<char>>),
}

impl View for SearchEvent {
    type V = SearchEventView;

    open spec fn view(&self) -> SearchEventView {
        match self {
            SearchEvent::Asked(query) => SearchEventView::Asked(query@),
            SearchEvent::Failed(detail) => SearchEventView::Failed(detail@),
            SearchEvent::Responded(status) => SearchEventView::Responded(status.code()),
            SearchEvent::Decoded(Ok(found)) => SearchEventView::Decoded(Ok(found@)),
            SearchEvent::Decoded(Err(detail)) => SearchEventView::Decoded(Err(detail@)),
        }
    }
}

/// What a search does next.
#[derive(Debug, PartialEq, Eq)]
pub enum SearchAction {
    /// Send this request and report its status, or that it failed.
    Get(SearchRequest),
    /// Decode the body of the response as a catalog response and report it.
    Decode,
    /// The search is over, with this outcome.
    Return(Result<RisibankSearchResult, RisibankError>),
}

pub enum SearchActionView {
    Get(SearchRequestView),
    Decode,
    Return(Result<Seq<StickerView>, RisibankErrorView>),
}

impl View for SearchAction {
    type V = SearchActionView;

    open spec fn view(&self) -> SearchActionView {
        match self {
            SearchAction::Get(request) => SearchActionView::Get(request@),
            SearchAction::Decode => SearchActionView::Decode,
            SearchAction::Return(outcome) => SearchActionView::Return(outcome_view(*outcome)),
        }
    }
}

/// The request that asks the catalog at `base_url` for `query`.
pub open spec fn search_request(base_url: Seq<char>, query: Seq<char>) -> SearchRequestView {
    SearchRequestView { url: base_url + "/search"@, query: seq![("search"@, query)] }
}

/// What the status of a response means for the search.
pub open spec fn status_verdict(code: nat) -> SearchActionView {
    if HttpStatus::success(code) {
        SearchActionView::Decode
    } else if HttpStatus::too_many_requests(code) {
        SearchActionView::Return(Err(RisibankErrorView::RateLimit))
    } else {
        SearchActionView::Return(
            Err(RisibankErrorView::InvalidResponse("Unexpected status code: "@ + status_line(code))),
        )
    }
}

/// What a search against the catalog at `base_url` does after `event`.
pub open spec fn search_step(base_url: Seq<char>, event: SearchEventView) -> SearchActionView {
    match event {
        SearchEventView::Asked(query) => SearchActionView::Get(search_request(base_url, query)),
        SearchEventView::Failed(detail) => SearchActionView::Return(
            Err(RisibankErrorView::Transport(detail)),
        ),
        SearchEventView::Responded(code) => status_verdict(code),
        SearchEventView::Decoded(Ok(found)) => SearchActionView::Return(Ok(found)),
        SearchEventView::Decoded(Err(detail)) => SearchActionView::Return(
            Err(RisibankErrorView::InvalidResponse(detail)),
        ),
    }
}

/// The catalog client's rules: where the catalog is, how a search is put to
/// it, and what each answer means.
#[derive(Debug, Clone, PartialEq, Eq)]
pub struct Risibank {
    base_url: String,
}

impl View for Risibank {
    type V = Seq<char>;

    /// The base URL of the catalog.
    closed spec fn view(&self) -> Seq<char> {
        self.base_url@
    }
}

impl Risibank {
    /// A client of the catalog at its usual place.
    pub fn new() -> (client: Risibank)
        ensures
            client@ == API_BASE_URL@,
    {
        Risibank { base_url: String::from_str(API_BASE_URL) }
    }

    /// A client of a catalog that is reached at `base_url`.
    pub fn with_base_url(base_url: String) -> (client: Risibank)
        ensures
            client@ == base_url@,
    {
        Risibank { base_url }
    }

    pub fn base_url(&self) -> (base_url: &str)
        ensures
            base_url@ == self@,
    {
        self.base_url.as_str()
    }

    /// One step of a search: what to do after `event`.
    pub fn search(&self, event: SearchEvent) -> (action: SearchAction)
        ensures
            action@ == search_step(self@, event@),
    {
        match event {
            SearchEvent::Asked(query) => {
                let mut url = self.base_url.clone();
                url.append("/search");
                let mut pairs: Vec<(String, String)> = Vec::new();
                pairs.push((String::from_str("search"), query));
                let request = SearchRequest { url, query: pairs };
                assert(request@.query =~= seq![("search"@, query@)]);
                SearchAction::Get(request)
            },
            SearchEvent::Failed(detail) => SearchAction::Return(
                Err(RisibankError::Transport(detail)),
            ),
            SearchEvent::Responded(status) => {
                if status.is_success() {
                    SearchAction::Decode
                } else if status.is_too_many_requests() {
                    SearchAction::Return(Err(RisibankError::RateLimit))
                } else {
                    let status_text = status.to_text();
                    SearchAction::Return(Err(RisibankError::unexpected_status(status_text.as_str())))
                }
            },
            SearchEvent::Decoded(Ok(found)) => SearchAction::Return(Ok(found)),
            SearchEvent::Decoded(Err(detail)) => SearchAction::Return(
                Err(RisibankError::InvalidResponse(detail)),
            ),
        }
    }
}

} // verus!
