//! The normalized search model: what callers receive, whatever the provider
//! sent.

use vstd::prelude::*;
use crate::json::{JsonNumber, NumberView};

verus! {

/// The kinds of media. Only `Game` has a provider behind it.
#[derive(Debug, Clone, Copy, PartialEq, Eq, Structural)]
pub enum MediaType {
    Anime,
    Manga,
    Movie,
    TvShow,
    Game,
}

/// The model of an entry that a provider lists by id, name and slug.
pub struct Labeled {
    pub id: int,
    pub name: Seq<char>,
    pub slug: Seq<char>,
}

/// An entry made of an id, a name and a slug.
pub trait Entry: Sized {
    spec fn labeled(&self) -> Labeled;

    fn assemble(id: i32, name: String, slug: String) -> (entry: Self)
        ensures
            entry.labeled() == (Labeled { id: id as int, name: name@, slug: slug@ }),
    ;
}

#[derive(Debug)]
pub struct Genre {
    pub id: i32,
    pub name: String,
    pub slug: String,
}

#[derive(Debug)]
pub struct Platform {
    pub id: i32,
    pub name: String,
    pub slug: String,
}

#[derive(Debug)]
pub struct EsrbRating {
    pub id: i32,
    pub name: String,
    pub slug: String,
}

#[derive(Debug)]
pub struct Tag {
    pub id: i32,
    pub name: String,
    pub slug: String,
}

#[derive(Debug)]
pub struct Screenshot {
    pub id: i32,
    pub image_url: String,
}

impl Entry for Genre {
    open spec fn labeled(&self) -> Labeled {
        Labeled { id: self.id as int, name: self.name@, slug: self.slug@ }
    }

    fn assemble(id: i32, name: String, slug: String) -> (entry: Genre) {
        Genre { id, name, slug }
    }
}

impl Entry for Platform {
    open spec fn labeled(&self) -> Labeled {
        Labeled { id: self.id as int, name: self.name@, slug: self.slug@ }
    }

    fn assemble(id: i32, name: String, slug: String) -> (entry: Platform) {
        Platform { id, name, slug }
    }
}

impl Entry for EsrbRating {
    open spec fn labeled(&self) -> Labeled {
        Labeled { id: self.id as int, name: self.name@, slug: self.slug@ }
    }

    fn assemble(id: i32, name: String, slug: String) -> (entry: EsrbRating) {
        EsrbRating { id, name, slug }
    }
}

impl Entry for Tag {
    open spec fn labeled(&self) -> Labeled {
        Labeled { id: self.id as int, name: self.name@, slug: self.slug@ }
    }

    fn assemble(id: i32, name: String, slug: String) -> (entry: Tag) {
        Tag { id, name, slug }
    }
}

/// The model of a screenshot.
pub struct ScreenshotView {
    pub id: int,
    pub image_url: Seq<char>,
}

impl View for Screenshot {
    type V = ScreenshotView;

    open spec fn view(&self) -> ScreenshotView {
        ScreenshotView { id: self.id as int, image_url: self.image_url@ }
    }
}

/// The models of a list of entries, in order.
pub open spec fn labeled_all<T: Entry>(entries: Seq<T>) -> Seq<Labeled> {
    Seq::new(entries.len(), |i: int| entries[i].labeled())
}

/// The models of a list of screenshots, in order.
pub open spec fn screenshots_all(shots: Seq<Screenshot>) -> Seq<ScreenshotView> {
    Seq::new(shots.len(), |i: int| shots[i]@)
}

/// One normalized record. `rating` keeps the provider's number as it was
/// written. The fields after `description` are the provider's enrichment.
#[derive(Debug)]
pub struct SearchResult {
    pub id: String,
    pub title: String,
    pub media_type: MediaType,
    pub poster_path: Option<String>,
    pub release_date: Option<String>,
    pub rating: Option<JsonNumber>,
    pub description: Option<String>,
    pub slug: Option<String>,
    pub rating_top: Option<i32>,
    pub metacritic: Option<u32>,
    pub playtime: Option<i32>,
    pub genres: Option<Vec<Genre>>,
    pub platforms: Option<Vec<Platform>>,
    pub esrb_rating: Option<EsrbRating>,
    pub tags: Option<Vec<Tag>>,
    pub screenshots: Option<Vec<Screenshot>>,
}

/// The model of a normalized record.
pub struct SearchResultView {
    pub id: Seq<char>,
    pub title: Seq<char>,
    pub media_type: MediaType,
    pub poster_path: Option<Seq<char>>,
    pub release_date: Option<Seq<char>>,
    pub rating: Option<NumberView>,
    pub description: Option<Seq<char>>,
    pub slug: Option<Seq<char>>,
    pub rating_top: Option<i32>,
    pub metacritic: Option<u32>,
    pub playtime: Option<i32>,
    pub genres: Option<Seq<Labeled>>,
    pub platforms: Option<Seq<Labeled>>,
    pub esrb_rating: Option<Labeled>,
    pub tags: Option<Seq<Labeled>>,
    pub screenshots: Option<Seq<ScreenshotView>>,
}

/// The model of an optional text.
pub open spec fn text_view(text: Option<String>) -> Option<Seq<char>> {
    match text {
        Some(s) => Some(s@),
        None => None,
    }
}

/// The model of an optional list of entries.
pub open spec fn entries_view<T: Entry>(entries: Option<Vec<T>>) -> Option<Seq<Labeled>> {
    match entries {
        Some(list) => Some(labeled_all(list@)),
        None => None,
    }
}

impl View for SearchResult {
    type V = SearchResultView;

    open spec fn view(&self) -> SearchResultView {
        SearchResultView {
            id: self.id@,
            title: self.title@,
            media_type: self.media_type,
            poster_path: text_view(self.poster_path),
            release_date: text_view(self.release_date),
            rating: match self.rating {
                Some(n) => Some(n@),
                None => None,
            },
            description: text_view(self.description),
            slug: text_view(self.slug),
            rating_top: self.rating_top,
            metacritic: self.metacritic,
            playtime: self.playtime,
            genres: entries_view(self.genres),
            platforms: entries_view(self.platforms),
            esrb_rating: match self.esrb_rating {
                Some(e) => Some(e.labeled()),
                None => None,
            },
            tags: entries_view(self.tags),
            screenshots: match self.screenshots {
                Some(list) => Some(screenshots_all(list@)),
                None => None,
            },
        }
    }
}

/// One page of normalized results with its pagination.
#[derive(Debug)]
pub struct SearchResponse {
    pub results: Vec<SearchResult>,
    pub total_results: u32,
    pub total_pages: u32,
    pub current_page: u32,
}

/// The model of a page of results.
pub struct SearchResponseView {
    pub results: Seq<SearchResultView>,
    pub total_results: u32,
    pub total_pages: u32,
    pub current_page: u32,
}

/// The models of a list of records, in order.
pub open spec fn results_all(results: Seq<SearchResult>) -> Seq<SearchResultView> {
    Seq::new(results.len(), |i: int| results[i]@)
}

impl View for SearchResponse {
    type V = SearchResponseView;

    open spec fn view(&self) -> SearchResponseView {
        SearchResponseView {
            results: results_all(self.results@),
            total_results: self.total_results,
            total_pages: self.total_pages,
            current_page: self.current_page,
        }
    }
}

/// A search over any kind of media.
#[derive(Debug)]
pub struct SearchRequest {
    pub query: String,
    pub media_type: MediaType,
    pub page: Option<u32>,
    pub limit: Option<u32>,
}

/// The general envelope of an answer.
#[derive(Debug)]
pub struct ApiResponse<T> {
    pub success: bool,
    pub data: Option<T>,
    pub error: Option<String>,
}

} // verus!
