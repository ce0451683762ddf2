//! The client of the game catalog: which request each operation makes, and
//! what each reply of the provider means.

use vstd::prelude::*;
use vstd::string::StringExecFns;
use crate::agreement::decoding_is_determined;
use crate::config::Config;
use crate::dates::{new_release_window, released_window, upcoming_release_window, upcoming_window};
use crate::document::{document_of, is_document, parse_document, parsed_value, raw_document};
use crate::error::AppError;
use crate::json::Json;
use crate::models::SearchResponse;
use crate::rawg::{decode_failure, response_of, search_response, PAGE_SIZE};
use crate::text::{decimal, decimal_text};
use serde_json::Value;

verus! {

/// The seconds after which an outbound call is given up.
pub const TIMEOUT_SECS: u64 = 10;

/// One outbound call: a GET of `url` with the pairs of `query` appended.
#[derive(Debug)]
pub struct OutboundRequest {
    pub url: String,
    pub query: Vec<(String, String)>,
}

/// The model of an outbound call.
pub struct RequestView {
    pub url: Seq<char>,
    pub query: Seq<(Seq<char>, Seq<char>)>,
}

impl View for OutboundRequest {
    type V = RequestView;

    open spec fn view(&self) -> RequestView {
        RequestView {
            url: self.url@,
            query: Seq::new(self.query@.len(), |i: int| (self.query@[i].0@, self.query@[i].1@)),
        }
    }
}

/// How an outbound call ended: it never got an answer (the connection
/// failed, or the time ran out), or the provider answered with a status and
/// a body.
#[derive(Debug)]
pub enum ProviderReply {
    Failed(String),
    Answered(u16, String),
}

/// Whether a status is one of success.
pub open spec fn is_success(status: u16) -> bool {
    200 <= status <= 299
}

/// The detail of a reply with a status that is not one of success.
pub open spec fn status_failure(status: u16) -> Seq<char> {
    "unexpected response status "@ + decimal(status as nat)
}

/// The address of the provider's listing of games.
pub open spec fn listing_url() -> Seq<char> {
    "https://api.rawg.io/api"@ + "/games"@
}

/// The address of one game at the provider.
pub open spec fn details_url(game_id: Seq<char>) -> Seq<char> {
    "https://api.rawg.io/api"@ + "/games/"@ + game_id
}

/// The request of a free-text search.
pub open spec fn search_request(key: Seq<char>, query: Seq<char>, page: u32) -> RequestView {
    RequestView {
        url: listing_url(),
        query: seq![
            ("key"@, key),
            ("search"@, query),
            ("page"@, decimal(page as nat)),
            ("page_size"@, decimal(PAGE_SIZE as nat)),
        ],
    }
}

/// The request for one game.
pub open spec fn details_request(key: Seq<char>, game_id: Seq<char>) -> RequestView {
    RequestView { url: details_url(game_id), query: seq![("key"@, key)] }
}

/// The request for a page of the listing in a given order, with or without
/// a filter on the release date.
pub open spec fn ordered_request(
    key: Seq<char>,
    dates: Option<Seq<char>>,
    ordering: Seq<char>,
    page: u32,
) -> RequestView {
    RequestView {
        url: listing_url(),
        query: match dates {
            Some(window) => seq![
                ("key"@, key),
                ("dates"@, window),
                ("ordering"@, ordering),
                ("page"@, decimal(page as nat)),
                ("page_size"@, decimal(PAGE_SIZE as nat)),
            ],
            None => seq![
                ("key"@, key),
                ("ordering"@, ordering),
                ("page"@, decimal(page as nat)),
                ("page_size"@, decimal(PAGE_SIZE as nat)),
            ],
        },
    }
}

/// What a reply holds: its body where the provider answered with success,
/// else the failure that the caller is told of.
pub fn reply_body(reply: &ProviderReply) -> (outcome: Result<&String, AppError>)
    ensures
        match *reply {
            ProviderReply::Failed(detail) => outcome is Err && outcome->Err_0 is ExternalApi
                && outcome->Err_0->ExternalApi_0@ == detail@,
            ProviderReply::Answered(status, body) => if is_success(status) {
                outcome is Ok && *outcome->Ok_0 == body
            } else {
                outcome is Err && outcome->Err_0 is ExternalApi
                    && outcome->Err_0->ExternalApi_0@ == status_failure(status)
            },
        },
{
    match reply {
        ProviderReply::Failed(detail) => Err(AppError::ExternalApi(detail.clone())),
        ProviderReply::Answered(status, body) => {
            if 200 <= *status && *status <= 299 {
                Ok(body)
            } else {
                Err(
                    AppError::ExternalApi(
                        "unexpected response status ".to_owned().concat(
                            decimal_text(*status as u32).as_str(),
                        ),
                    ),
                )
            }
        },
    }
}

fn ordered(key: &String, dates: Option<String>, ordering: &str, page: u32) -> (request:
    OutboundRequest)
    ensures
        request@ == ordered_request(
            key@,
            match dates {
                Some(window) => Some(window@),
                None => None,
            },
            ordering@,
            page,
        ),
{
    let mut query: Vec<(String, String)> = Vec::new();
    query.push(("key".to_owned(), key.clone()));
    match dates {
        Some(window) => {
            query.push(("dates".to_owned(), window));
        },
        None => {},
    }
    query.push(("ordering".to_owned(), ordering.to_owned()));
    query.push(("page".to_owned(), decimal_text(page)));
    query.push(("page_size".to_owned(), decimal_text(PAGE_SIZE)));
    let request = OutboundRequest {
        url: "https://api.rawg.io/api".to_owned().concat("/games"),
        query,
    };
    assert(request@.query =~= ordered_request(
        key@,
        match dates {
            Some(window) => Some(window@),
            None => None,
        },
        ordering@,
        page,
    ).query);
    request
}

/// The client of the provider. It holds the configuration and decides; the
/// calls themselves are made by whoever holds the connection.
#[derive(Debug, Clone)]
pub struct ApiClient {
    pub config: Config,
}

impl ApiClient {
    pub fn new(config: Config) -> (client: ApiClient)
        ensures
            client.config == config,
    {
        ApiClient { config }
    }

    /// The outbound call of a search for `query`, page `page` counted
    /// from 1.
    pub fn search_rawg(&self, query: &str, page: u32) -> (request: OutboundRequest)
        ensures
            request@ == search_request(self.config.api.rawg_api_key@, query@, page),
    {
        let mut pairs: Vec<(String, String)> = Vec::new();
        pairs.push(("key".to_owned(), self.config.api.rawg_api_key.clone()));
        pairs.push(("search".to_owned(), query.to_owned()));
        pairs.push(("page".to_owned(), decimal_text(page)));
        pairs.push(("page_size".to_owned(), decimal_text(PAGE_SIZE)));
        let request = OutboundRequest {
            url: "https://api.rawg.io/api".to_owned().concat("/games"),
            query: pairs,
        };
        assert(request@.query =~= search_request(
            self.config.api.rawg_api_key@,
            query@,
            page,
        ).query);
        request
    }

    /// The outbound call for the provider's record of one game.
    pub fn get_game_details(&self, game_id: String) -> (request: OutboundRequest)
        ensures
            request@ == details_request(self.config.api.rawg_api_key@, game_id@),
    {
        let mut pairs: Vec<(String, String)> = Vec::new();
        pairs.push(("key".to_owned(), self.config.api.rawg_api_key.clone()));
        let request = OutboundRequest {
            url: "https://api.rawg.io/api".to_owned().concat("/games/").concat(game_id.as_str()),
            query: pairs,
        };
        assert(request@.query =~= details_request(
            self.config.api.rawg_api_key@,
            game_id@,
        ).query);
        request
    }

    /// The outbound call for a page of the games rated best.
    pub fn get_popular_games(&self, page: u32) -> (request: OutboundRequest)
        ensures
            request@ == ordered_request(
                self.config.api.rawg_api_key@,
                None,
                "-rating"@,
                page,
            ),
    {
        ordered(&self.config.api.rawg_api_key, None, "-rating", page)
    }

    /// The outbound call for a page of the games released in the thirty days
    /// up to `now`, an instant in seconds since the start of 1970. Nothing
    /// where the calendar has no date for an end of the window.
    pub fn get_new_releases(&self, now: i64, page: u32) -> (request: Option<OutboundRequest>)
        ensures
            request is Some <==> released_window(now) is Some,
            request is Some ==> request.unwrap()@ == ordered_request(
                self.config.api.rawg_api_key@,
                released_window(now),
                "-added"@,
                page,
            ),
    {
        match new_release_window(now) {
            Some(window) => Some(
                ordered(&self.config.api.rawg_api_key, Some(window), "-added", page),
            ),
            None => None,
        }
    }

    /// The outbound call for a page of the games to be released in the
    /// hundred and eighty days after `now`. Nothing where the calendar has no
    /// date for an end of the window.
    pub fn get_upcoming_games(&self, now: i64, page: u32) -> (request: Option<OutboundRequest>)
        ensures
            request is Some <==> upcoming_window(now) is Some,
            request is Some ==> request.unwrap()@ == ordered_request(
                self.config.api.rawg_api_key@,
                upcoming_window(now),
                "-added"@,
                page,
            ),
    {
        match upcoming_release_window(now) {
            Some(window) => Some(
                ordered(&self.config.api.rawg_api_key, Some(window), "-added", page),
            ),
            None => None,
        }
    }

    /// What the reply to a search means: the page of normalized results
    /// that was asked for, or an `ExternalApi` failure. It fails where the
    /// call failed, where the status is not one of success, where the body
    /// is no JSON document, and where the document does not decode. Else
    /// the page is what every document of the body decodes to.
    pub fn search_results(&self, reply: &ProviderReply, page: u32) -> (outcome: Result<
        SearchResponse,
        AppError,
    >)
        ensures
            outcome is Err ==> outcome->Err_0 is ExternalApi,
            match *reply {
                ProviderReply::Failed(detail) => outcome is Err
                    && outcome->Err_0->ExternalApi_0@ == detail@,
                ProviderReply::Answered(status, body) => if !is_success(status) {
                    outcome is Err && outcome->Err_0->ExternalApi_0@ == status_failure(status)
                } else if !is_document(body@) {
                    outcome is Err && outcome->Err_0->ExternalApi_0@ == decode_failure()
                } else {
                    &&& exists|doc: Json| document_of(body@, doc)
                    &&& forall|doc: Json| #[trigger]
                        document_of(body@, doc) ==> match outcome {
                            Ok(response) => response_of(doc, page) == Some(response@),
                            Err(error) => response_of(doc, page) is None
                                && error->ExternalApi_0@ == decode_failure(),
                        }
                },
            },
    {
        let body = match reply_body(reply) {
            Ok(body) => body,
            Err(error) => return Err(error),
        };
        match parse_document(body.as_str()) {
            Some(doc) => {
                let outcome = search_response(&doc, page);
                proof {
                    assert(document_of(body@, doc));
                    assert forall|other: Json| #[trigger]
                        document_of(body@, other) implies response_of(other, page)
                        == response_of(doc, page) by {
                        decoding_is_determined(body@, doc, other, page);
                    }
                }
                outcome
            },
            None => Err(AppError::ExternalApi("error decoding response body".to_owned())),
        }
    }

    /// What the reply to any other operation means: the provider's document
    /// as it was written, or an `ExternalApi` failure. It fails where the
    /// call failed, where the status is not one of success, and where the
    /// body is no JSON document.
    pub fn raw_results(&self, reply: &ProviderReply) -> (outcome: Result<Value, AppError>)
        ensures
            outcome is Err ==> outcome->Err_0 is ExternalApi,
            match *reply {
                ProviderReply::Failed(detail) => outcome is Err
                    && outcome->Err_0->ExternalApi_0@ == detail@,
                ProviderReply::Answered(status, body) => if !is_success(status) {
                    outcome is Err && outcome->Err_0->ExternalApi_0@ == status_failure(status)
                } else {
                    match outcome {
                        Ok(value) => parsed_value(body@) == Some(value),
                        Err(error) => parsed_value(body@) is None && error->ExternalApi_0@
                            == decode_failure(),
                    }
                },
            },
    {
        let body = match reply_body(reply) {
            Ok(body) => body,
            Err(error) => return Err(error),
        };
        raw_document(body.as_str())
    }
}

} // verus!
