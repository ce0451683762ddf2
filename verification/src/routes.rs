//! The inputs of the request handlers and what the handlers decide.

use vstd::prelude::*;
use crate::dates::{released_window, upcoming_window};
use crate::error::AppError;
use crate::external::{
    details_request, ordered_request, search_request, ApiClient, OutboundRequest,
};
use crate::models::MediaType;

verus! {

/// The page that is served where a request names none.
pub const DEFAULT_PAGE: u32 = 1;

/// The body of a search for games.
#[derive(Debug)]
pub struct GameSearchRequest {
    pub query: String,
    pub page: Option<u32>,
}

/// The query of a listing.
#[derive(Debug)]
pub struct PageQuery {
    pub page: Option<u32>,
}

/// The answer of the health check.
#[derive(Debug)]
pub struct Health {
    pub status: String,
    pub version: String,
    pub service: String,
}

/// The page that a request asks for: the one it names, else the first.
pub open spec fn requested_page(page: Option<u32>) -> u32 {
    match page {
        Some(page) => page,
        None => DEFAULT_PAGE,
    }
}

/// The page to serve for a request.
pub fn page_or_default(page: Option<u32>) -> (served: u32)
    ensures
        served == requested_page(page),
{
    match page {
        Some(page) => page,
        None => DEFAULT_PAGE,
    }
}

impl GameSearchRequest {
    /// Checks the parts of a search body: the query must be there, the page
    /// may be.
    pub fn from_parts(query: Option<String>, page: Option<u32>) -> (outcome: Result<
        GameSearchRequest,
        AppError,
    >)
        ensures
            match outcome {
                Ok(request) => query == Some(request.query) && request.page == page,
                Err(error) => query is None && error is BadRequest && error->BadRequest_0@
                    == "query is required"@,
            },
    {
        match query {
            Some(query) => Ok(GameSearchRequest { query, page }),
            None => Err(AppError::BadRequest("query is required".to_owned())),
        }
    }

    /// The page to serve.
    pub fn page(&self) -> (served: u32)
        ensures
            served == requested_page(self.page),
    {
        page_or_default(self.page)
    }
}

impl PageQuery {
    /// The page to serve.
    pub fn page(&self) -> (served: u32)
        ensures
            served == requested_page(self.page),
    {
        page_or_default(self.page)
    }
}

/// The outbound call that serves a search: for the query as it came, and
/// for the first page where the body names none.
pub fn search_game(client: &ApiClient, request: &GameSearchRequest) -> (call: OutboundRequest)
    ensures
        call@ == search_request(
            client.config.api.rawg_api_key@,
            request.query@,
            requested_page(request.page),
        ),
{
    client.search_rawg(request.query.as_str(), request.page())
}

/// The outbound call that serves the record of one game.
pub fn get_game_details(client: &ApiClient, game_id: String) -> (call: OutboundRequest)
    ensures
        call@ == details_request(client.config.api.rawg_api_key@, game_id@),
{
    client.get_game_details(game_id)
}

/// The outbound call that serves a page of the games rated best.
pub fn get_popular_games(client: &ApiClient, params: &PageQuery) -> (call: OutboundRequest)
    ensures
        call@ == ordered_request(
            client.config.api.rawg_api_key@,
            None,
            "-rating"@,
            requested_page(params.page),
        ),
{
    client.get_popular_games(params.page())
}

/// The outbound call that serves a page of the new releases at the instant
/// `now`.
pub fn get_new_releases(client: &ApiClient, params: &PageQuery, now: i64) -> (call: Option<
    OutboundRequest,
>)
    ensures
        call is Some <==> released_window(now) is Some,
        call is Some ==> call.unwrap()@ == ordered_request(
            client.config.api.rawg_api_key@,
            released_window(now),
            "-added"@,
            requested_page(params.page),
        ),
{
    client.get_new_releases(now, params.page())
}

/// The outbound call that serves a page of the upcoming games at the
/// instant `now`.
pub fn get_upcoming_games(client: &ApiClient, params: &PageQuery, now: i64) -> (call: Option<
    OutboundRequest,
>)
    ensures
        call is Some <==> upcoming_window(now) is Some,
        call is Some ==> call.unwrap()@ == ordered_request(
            client.config.api.rawg_api_key@,
            upcoming_window(now),
            "-added"@,
            requested_page(params.page),
        ),
{
    client.get_upcoming_games(now, params.page())
}

/// Whether a kind of media has a provider behind it.
pub open spec fn has_provider(media_type: MediaType) -> bool {
    media_type == MediaType::Game
}

/// Admits the kinds of media that have a provider and refuses the others,
/// so that none of them is ever answered from the game catalog.
pub fn require_provider(media_type: MediaType) -> (outcome: Result<MediaType, AppError>)
    ensures
        match outcome {
            Ok(admitted) => has_provider(media_type) && admitted == media_type,
            Err(error) => !has_provider(media_type) && error is BadRequest
                && error->BadRequest_0@ == "unsupported media type"@,
        },
{
    match media_type {
        MediaType::Game => Ok(media_type),
        _ => Err(AppError::BadRequest("unsupported media type".to_owned())),
    }
}

/// The answer of the health check for a service of this name and version.
pub fn health_check(version: &str, service: &str) -> (health: Health)
    ensures
        health.status@ == "ok"@,
        health.version@ == version@,
        health.service@ == service@,
{
    Health { status: "ok".to_owned(), version: version.to_owned(), service: service.to_owned() }
}

} // verus!
