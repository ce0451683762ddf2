//! The adapter for the game catalog: what a provider document means as a page
//! of normalized results, and how its pagination is recomputed.

use vstd::prelude::*;
use crate::decode::{
    entries_of, optional_entry, optional_i32, optional_number, optional_text, optional_u32,
    read_entries, read_optional_entry, read_optional_i32, read_optional_number,
    read_optional_text, read_optional_u32, read_required_text, read_required_u32,
    read_screenshots, required_text, required_u32, screenshots_of,
};
use crate::error::AppError;
use crate::json::Json;
use crate::models::{
    results_all, EsrbRating, Genre, Labeled, MediaType, Platform, ScreenshotView, SearchResponse,
    SearchResponseView, SearchResult, SearchResultView, Tag,
};
use crate::text::{decimal, decimal_text};

verus! {

/// The number of results that every listing asks the provider for.
pub const PAGE_SIZE: u32 = 20;

/// The detail of every failure to decode a provider document.
pub open spec fn decode_failure() -> Seq<char> {
    "error decoding response body"@
}

/// The number of pages that `total` results fill: the ceiling of
/// `total / PAGE_SIZE`.
pub open spec fn pages_for(total: u32) -> u32 {
    ((total + PAGE_SIZE - 1) / (PAGE_SIZE as int)) as u32
}

/// The number of pages for `total_results` results, at any count.
pub fn total_pages(total_results: u32) -> (pages: u32)
    ensures
        pages == pages_for(total_results),
{
    let full: u32 = total_results / PAGE_SIZE;
    if total_results % PAGE_SIZE == 0 {
        full
    } else {
        full + 1
    }
}

/// The page count is the ceiling of the result count over the page size: the
/// pages hold every result, one page fewer would not, and no result means no
/// page.
pub proof fn pages_are_ceiling(total: u32)
    ensures
        pages_for(total) * PAGE_SIZE >= total,
        total > 0 ==> (pages_for(total) - 1) * PAGE_SIZE < total,
        total == 0 <==> pages_for(total) == 0,
{
}

/// Whether every member of a game record has a form that its field accepts.
pub open spec fn game_decodes(game: Json) -> bool {
    &&& required_u32(game, "id"@) is Some
    &&& required_text(game, "name"@) is Some
    &&& optional_text(game, "background_image"@) is Some
    &&& optional_text(game, "released"@) is Some
    &&& optional_number(game, "rating"@) is Some
    &&& optional_text(game, "slug"@) is Some
    &&& optional_u32(game, "metacritic"@) is Some
    &&& optional_i32(game, "rating_top"@) is Some
    &&& optional_i32(game, "playtime"@) is Some
    &&& entries_of(game, "genres"@, false) is Some
    &&& entries_of(game, "platforms"@, true) is Some
    &&& optional_entry(game, "esrb_rating"@) is Some
    &&& entries_of(game, "tags"@, false) is Some
    &&& screenshots_of(game, "short_screenshots"@) is Some
}

/// The normalized record of a game record of the provider. Only `id` and
/// `name` must be there. The id is written in decimal, the media type is
/// always `Game`, nothing describes the game, and every other field, the
/// lists among them, is absent where the provider sent none.
pub open spec fn result_of(game: Json) -> Option<SearchResultView> {
    if game_decodes(game) {
        Some(
            SearchResultView {
                id: decimal(required_u32(game, "id"@).unwrap() as nat),
                title: required_text(game, "name"@).unwrap(),
                media_type: MediaType::Game,
                poster_path: optional_text(game, "background_image"@).unwrap(),
                release_date: optional_text(game, "released"@).unwrap(),
                rating: optional_number(game, "rating"@).unwrap(),
                description: None,
                slug: optional_text(game, "slug"@).unwrap(),
                rating_top: optional_i32(game, "rating_top"@).unwrap(),
                metacritic: optional_u32(game, "metacritic"@).unwrap(),
                playtime: optional_i32(game, "playtime"@).unwrap(),
                genres: entries_of(game, "genres"@, false).unwrap(),
                platforms: entries_of(game, "platforms"@, true).unwrap(),
                esrb_rating: optional_entry(game, "esrb_rating"@).unwrap(),
                tags: entries_of(game, "tags"@, false).unwrap(),
                screenshots: screenshots_of(game, "short_screenshots"@).unwrap(),
            },
        )
    } else {
        None
    }
}

/// Every game record normalized, in order; a failure if any record fails.
pub open spec fn results_in(games: Seq<Json>) -> Option<Seq<SearchResultView>> {
    if forall|i: int| 0 <= i < games.len() ==> (#[trigger] result_of(games[i])) is Some {
        Some(Seq::new(games.len(), |i: int| result_of(games[i]).unwrap()))
    } else {
        None
    }
}

/// The records under `results`, which must be there and be an array.
pub open spec fn results_of(doc: Json) -> Option<Seq<SearchResultView>> {
    match doc.member("results"@) {
        Some(Json::Array(games)) => results_in(games@),
        _ => None,
    }
}

/// Whether a listing document has the provider's form: a `count`, links to
/// the neighbouring pages that are texts where they are there, and records
/// that all decode.
pub open spec fn listing_decodes(doc: Json) -> bool {
    &&& required_u32(doc, "count"@) is Some
    &&& optional_text(doc, "next"@) is Some
    &&& optional_text(doc, "previous"@) is Some
    &&& results_of(doc) is Some
}

/// The page that a listing document stands for when `page` was asked for.
/// The page count comes from `count` alone and the current page from the
/// request alone.
pub open spec fn response_of(doc: Json, page: u32) -> Option<SearchResponseView> {
    if listing_decodes(doc) {
        Some(
            SearchResponseView {
                results: results_of(doc).unwrap(),
                total_results: required_u32(doc, "count"@).unwrap(),
                total_pages: pages_for(required_u32(doc, "count"@).unwrap()),
                current_page: page,
            },
        )
    } else {
        None
    }
}

/// Normalizes one game record.
pub fn normalize_game(game: &Json) -> (found: Option<SearchResult>)
    ensures
        match found {
            Some(result) => result_of(*game) == Some(result@),
            None => result_of(*game) is None,
        },
{
    let id = match read_required_u32(game, "id") {
        Some(id) => id,
        None => return None,
    };
    let title = match read_required_text(game, "name") {
        Some(name) => name,
        None => return None,
    };
    let poster_path = match read_optional_text(game, "background_image") {
        Some(image) => image,
        None => return None,
    };
    let release_date = match read_optional_text(game, "released") {
        Some(released) => released,
        None => return None,
    };
    let rating = match read_optional_number(game, "rating") {
        Some(rating) => rating,
        None => return None,
    };
    let slug = match read_optional_text(game, "slug") {
        Some(slug) => slug,
        None => return None,
    };
    let metacritic = match read_optional_u32(game, "metacritic") {
        Some(score) => score,
        None => return None,
    };
    let rating_top = match read_optional_i32(game, "rating_top") {
        Some(top) => top,
        None => return None,
    };
    let playtime = match read_optional_i32(game, "playtime") {
        Some(hours) => hours,
        None => return None,
    };
    let genres = match read_entries::<Genre>(game, "genres", false) {
        Some(list) => list,
        None => return None,
    };
    let platforms = match read_entries::<Platform>(game, "platforms", true) {
        Some(list) => list,
        None => return None,
    };
    let esrb_rating = match read_optional_entry::<EsrbRating>(game, "esrb_rating") {
        Some(entry) => entry,
        None => return None,
    };
    let tags = match read_entries::<Tag>(game, "tags", false) {
        Some(list) => list,
        None => return None,
    };
    let screenshots = match read_screenshots(game, "short_screenshots") {
        Some(list) => list,
        None => return None,
    };
    let result = SearchResult {
        id: decimal_text(id),
        title,
        media_type: MediaType::Game,
        poster_path,
        release_date,
        rating,
        description: None,
        slug,
        rating_top,
        metacritic,
        playtime,
        genres,
        platforms,
        esrb_rating,
        tags,
        screenshots,
    };
    assert(result@ == result_of(*game).unwrap());
    Some(result)
}

/// Normalizes the records under `results`.
pub fn normalize_results(doc: &Json) -> (found: Option<Vec<SearchResult>>)
    ensures
        match found {
            Some(list) => results_of(*doc) == Some(results_all(list@)),
            None => results_of(*doc) is None,
        },
{
    match doc.field("results") {
        Some(Json::Array(games)) => {
            let mut list: Vec<SearchResult> = Vec::new();
            let mut i: usize = 0;
            while i < games.len()
                invariant
                    i <= games.len(),
                    list@.len() == i,
                    doc.member("results"@) == Some(Json::Array(*games)),
                    forall|k: int|
                        0 <= k < i ==> (#[trigger] result_of(games@[k])) == Some(list@[k]@),
                decreases games.len() - i,
            {
                match normalize_game(&games[i]) {
                    Some(result) => {
                        list.push(result);
                    },
                    None => {
                        assert(result_of(games@[i as int]) is None);
                        assert(results_in(games@) is None);
                        return None;
                    },
                }
                i += 1;
            }
            assert(results_all(list@) =~= results_in(games@).unwrap());
            Some(list)
        },
        _ => None,
    }
}

/// Turns a listing document of the provider into the page of normalized
/// results that was asked for, or fails as a whole: no part of a document
/// that does not decode is ever returned.
pub fn search_response(doc: &Json, page: u32) -> (outcome: Result<SearchResponse, AppError>)
    ensures
        match outcome {
            Ok(response) => response_of(*doc, page) == Some(response@),
            Err(error) => response_of(*doc, page) is None && error is ExternalApi
                && error->ExternalApi_0@ == decode_failure(),
        },
{
    let count = read_required_u32(doc, "count");
    let next = read_optional_text(doc, "next");
    let previous = read_optional_text(doc, "previous");
    let results = normalize_results(doc);
    match (count, next, previous, results) {
        (Some(total_results), Some(_), Some(_), Some(results)) => Ok(
            SearchResponse {
                results,
                total_results,
                total_pages: total_pages(total_results),
                current_page: page,
            },
        ),
        _ => Err(AppError::ExternalApi("error decoding response body".to_owned())),
    }
}

/// Whatever a listing document holds, the page it decodes to has the page
/// count that its result count calls for: the ceiling of the count over
/// the page size, and no page for no result.
pub proof fn pagination_is_recomputed(doc: Json, page: u32)
    requires
        response_of(doc, page) is Some,
    ensures
        response_of(doc, page).unwrap().total_pages == pages_for(
            response_of(doc, page).unwrap().total_results,
        ),
        response_of(doc, page).unwrap().total_pages * 20 >= response_of(
            doc,
            page,
        ).unwrap().total_results,
        response_of(doc, page).unwrap().total_results > 0 ==> (response_of(
            doc,
            page,
        ).unwrap().total_pages - 1) * 20 < response_of(doc, page).unwrap().total_results,
        response_of(doc, page).unwrap().total_results == 0 ==> response_of(
            doc,
            page,
        ).unwrap().total_pages == 0,
{
    pages_are_ceiling(required_u32(doc, "count"@).unwrap());
}

/// The current page of a decoded listing is the page that was asked for,
/// whatever the document says of its own place among the pages; and the
/// page asked for changes nothing else.
pub proof fn current_page_is_requested(doc: Json, page: u32, other: u32)
    requires
        response_of(doc, page) is Some,
    ensures
        response_of(doc, page).unwrap().current_page == page,
        response_of(doc, other) is Some,
        response_of(doc, other).unwrap().results == response_of(doc, page).unwrap().results,
        response_of(doc, other).unwrap().total_results == response_of(
            doc,
            page,
        ).unwrap().total_results,
        response_of(doc, other).unwrap().total_pages == response_of(doc, page).unwrap().total_pages,
{
}

/// A member that may be missing never fails a game record by being missing:
/// the field it feeds is then absent, a list as much as a text or a number.
pub proof fn missing_members_are_absent(game: Json)
    requires
        result_of(game) is Some,
    ensures
        game.member("background_image"@) is None ==> result_of(game).unwrap().poster_path is None,
        game.member("released"@) is None ==> result_of(game).unwrap().release_date is None,
        game.member("rating"@) is None ==> result_of(game).unwrap().rating is None,
        game.member("slug"@) is None ==> result_of(game).unwrap().slug is None,
        game.member("metacritic"@) is None ==> result_of(game).unwrap().metacritic is None,
        game.member("rating_top"@) is None ==> result_of(game).unwrap().rating_top is None,
        game.member("playtime"@) is None ==> result_of(game).unwrap().playtime is None,
        game.member("esrb_rating"@) is None ==> result_of(game).unwrap().esrb_rating is None,
        game.member("genres"@) is None ==> result_of(game).unwrap().genres is None,
        game.member("platforms"@) is None ==> result_of(game).unwrap().platforms is None,
        game.member("tags"@) is None ==> result_of(game).unwrap().tags is None,
        game.member("short_screenshots"@) is None ==> result_of(game).unwrap().screenshots
            is None,
{
}

/// A list is absent only where the provider sent none: a list that is there
/// comes out with as many entries as it has items, an empty one as empty.
pub proof fn sent_lists_are_kept(game: Json)
    requires
        result_of(game) is Some,
    ensures
        game.member("genres"@) is Some ==> game.member("genres"@).unwrap() is Array
            && result_of(game).unwrap().genres is Some
            && result_of(game).unwrap().genres.unwrap().len() == game.member(
            "genres"@,
        ).unwrap()->Array_0@.len(),
        game.member("platforms"@) is Some ==> game.member("platforms"@).unwrap() is Array
            && result_of(game).unwrap().platforms is Some
            && result_of(game).unwrap().platforms.unwrap().len() == game.member(
            "platforms"@,
        ).unwrap()->Array_0@.len(),
        game.member("tags"@) is Some ==> game.member("tags"@).unwrap() is Array && result_of(
            game,
        ).unwrap().tags is Some && result_of(game).unwrap().tags.unwrap().len() == game.member(
            "tags"@,
        ).unwrap()->Array_0@.len(),
        game.member("short_screenshots"@) is Some ==> game.member(
            "short_screenshots"@,
        ).unwrap() is Array && result_of(game).unwrap().screenshots is Some && result_of(
            game,
        ).unwrap().screenshots.unwrap().len() == game.member(
            "short_screenshots"@,
        ).unwrap()->Array_0@.len(),
{
}

/// A game record needs its `id` and its `name` and nothing else: with every
/// other member missing it decodes, to a record with every optional field
/// and every list absent.
pub proof fn id_and_name_suffice(game: Json)
    requires
        required_u32(game, "id"@) is Some,
        required_text(game, "name"@) is Some,
        game.member("background_image"@) is None,
        game.member("released"@) is None,
        game.member("rating"@) is None,
        game.member("slug"@) is None,
        game.member("metacritic"@) is None,
        game.member("rating_top"@) is None,
        game.member("playtime"@) is None,
        game.member("genres"@) is None,
        game.member("platforms"@) is None,
        game.member("esrb_rating"@) is None,
        game.member("tags"@) is None,
        game.member("short_screenshots"@) is None,
    ensures
        result_of(game) == Some(
            SearchResultView {
                id: decimal(required_u32(game, "id"@).unwrap() as nat),
                title: required_text(game, "name"@).unwrap(),
                media_type: MediaType::Game,
                poster_path: None,
                release_date: None,
                rating: None,
                description: None,
                slug: None,
                rating_top: None,
                metacritic: None,
                playtime: None,
                genres: None,
                platforms: None,
                esrb_rating: None,
                tags: None,
                screenshots: None,
            },
        ),
{
}

/// A member that may be missing is accepted when it is missing, whatever
/// object and whatever name.
pub proof fn missing_member_is_accepted(obj: Json, key: Seq<char>, wrapped: bool)
    requires
        obj.member(key) is None,
    ensures
        optional_text(obj, key) == Some(None::<Seq<char>>),
        optional_u32(obj, key) == Some(None::<u32>),
        optional_i32(obj, key) == Some(None::<i32>),
        optional_number(obj, key) is Some,
        optional_number(obj, key).unwrap() is None,
        optional_entry(obj, key) == Some(None::<Labeled>),
        entries_of(obj, key, wrapped) == Some(None::<Seq<Labeled>>),
        screenshots_of(obj, key) == Some(None::<Seq<ScreenshotView>>),
{
}

/// A document whose `results` is missing or is no array decodes to nothing,
/// and so does one with a record that does not decode.
pub proof fn invalid_body_is_rejected(doc: Json, page: u32)
    ensures
        doc.member("results"@) is None ==> response_of(doc, page) is None,
        doc.member("results"@) is Some && !(doc.member("results"@).unwrap() is Array)
            ==> response_of(doc, page) is None,
        !(doc is Object) ==> response_of(doc, page) is None,
        forall|i: int|
            doc.member("results"@) is Some && doc.member("results"@).unwrap() is Array && 0 <= i
                < doc.member("results"@).unwrap()->Array_0@.len() && (#[trigger] result_of(
                doc.member("results"@).unwrap()->Array_0@[i],
            )) is None ==> response_of(doc, page) is None,
{
}

} // verus!
