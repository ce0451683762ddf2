use media_backend::config::Config;
use media_backend::document::{parse_document, raw_document};
use media_backend::error::AppError;
use media_backend::external::{ApiClient, ProviderReply};
use media_backend::json::{Json, JsonNumber};
use media_backend::models::MediaType;
use media_backend::rawg::{normalize_game, search_response, total_pages};

fn listing(count: &str, results: &str) -> String {
    format!("{{\"count\":{},\"next\":null,\"previous\":null,\"results\":{}}}", count, results)
}

fn client() -> ApiClient {
    let config = Config::from_env(None, None, Some("k3y".to_string()), None, None)
        .expect("a configuration");
    ApiClient::new(config)
}

fn answered(body: &str) -> ProviderReply {
    ProviderReply::Answered(200, body.to_string())
}

fn decode_failure(outcome: Result<media_backend::models::SearchResponse, AppError>) {
    match outcome {
        Err(AppError::ExternalApi(detail)) => assert_eq!(detail, "error decoding response body"),
        other => panic!("expected ExternalApi, got {:?}", other),
    }
}

const FULL_GAME: &str = "{\"id\":3498,\"name\":\"Grand Theft Auto V\",\
\"background_image\":\"https://media.example/gta.jpg\",\"released\":\"2013-09-17\",\
\"rating\":4.47,\"slug\":\"grand-theft-auto-v\",\"metacritic\":92,\"rating_top\":5,\
\"playtime\":74,\"ignored\":{\"a\":1},\
\"genres\":[{\"id\":4,\"name\":\"Action\",\"slug\":\"action\"},{\"id\":3,\"name\":\"Adventure\",\"slug\":\"adventure\"}],\
\"platforms\":[{\"platform\":{\"id\":187,\"name\":\"PlayStation 5\",\"slug\":\"playstation5\"},\"released_at\":\"2013-09-17\"}],\
\"esrb_rating\":{\"id\":4,\"name\":\"Mature\",\"slug\":\"mature\"},\
\"tags\":[{\"id\":31,\"name\":\"Singleplayer\",\"slug\":\"singleplayer\",\"language\":\"eng\"}],\
\"short_screenshots\":[{\"id\":-1,\"image\":\"https://media.example/1.jpg\"},{\"id\":1827221,\"image\":\"https://media.example/2.jpg\"}]}";

#[test]
fn total_pages_is_ceiling_of_count_over_twenty() {
    assert_eq!(total_pages(0), 0);
    assert_eq!(total_pages(1), 1);
    assert_eq!(total_pages(19), 1);
    assert_eq!(total_pages(20), 1);
    assert_eq!(total_pages(21), 2);
    assert_eq!(total_pages(40), 2);
    assert_eq!(total_pages(45), 3);
    assert_eq!(total_pages(u32::MAX - 10), 214_748_365);
    assert_eq!(total_pages(u32::MAX), 214_748_365);
}

#[test]
fn search_for_zelda_page_two_of_forty_five() {
    let body = listing("45", "[{\"id\":22511,\"name\":\"The Legend of Zelda\"}]");
    let response = client().search_results(&answered(&body), 2).expect("a page");
    assert_eq!(response.total_results, 45);
    assert_eq!(response.total_pages, 3);
    assert_eq!(response.current_page, 2);
    assert_eq!(response.results.len(), 1);
    assert_eq!(response.results[0].id, "22511");
    assert_eq!(response.results[0].title, "The Legend of Zelda");
}

#[test]
fn no_results_means_no_pages() {
    let body = listing("0", "[]");
    let response = client().search_results(&answered(&body), 1).expect("a page");
    assert_eq!(response.total_results, 0);
    assert_eq!(response.total_pages, 0);
    assert_eq!(response.current_page, 1);
    assert!(response.results.is_empty());
}

#[test]
fn current_page_is_the_one_requested_not_one_the_provider_names() {
    let body = "{\"count\":100,\"next\":\"https://api.example/games?page=4\",\
\"previous\":\"https://api.example/games?page=2\",\"current_page\":3,\"page\":3,\"results\":[]}";
    let doc = parse_document(body).expect("a document");
    for page in [1u32, 3, 7, 4_000_000_000] {
        let response = search_response(&doc, page).expect("a page");
        assert_eq!(response.current_page, page);
        assert_eq!(response.total_pages, 5);
        assert_eq!(response.total_results, 100);
    }
}

#[test]
fn a_record_with_only_id_and_name_decodes_with_the_rest_absent() {
    let doc = parse_document("{\"id\":7,\"name\":\"Pong\"}").expect("a document");
    let result = normalize_game(&doc).expect("a record");
    assert_eq!(result.id, "7");
    assert_eq!(result.title, "Pong");
    assert_eq!(result.media_type, MediaType::Game);
    assert!(result.poster_path.is_none());
    assert!(result.release_date.is_none());
    assert!(result.rating.is_none());
    assert!(result.description.is_none());
    assert!(result.slug.is_none());
    assert!(result.rating_top.is_none());
    assert!(result.metacritic.is_none());
    assert!(result.playtime.is_none());
    assert!(result.esrb_rating.is_none());
    assert!(result.genres.is_none());
    assert!(result.platforms.is_none());
    assert!(result.tags.is_none());
    assert!(result.screenshots.is_none());
}

#[test]
fn lists_that_the_provider_omits_are_absent_in_the_page() {
    let records = "[{\"id\":1,\"name\":\"A\",\"genres\":[{\"id\":4,\"name\":\"Action\",\"slug\":\"action\"}]},\
{\"id\":2,\"name\":\"B\"}]";
    let body = listing("2", records);
    let response = client().search_results(&answered(&body), 1).expect("a page");
    assert_eq!(response.results.len(), 2);
    assert_eq!(response.results[0].genres.as_ref().map(|list| list.len()), Some(1));
    assert!(response.results[0].platforms.is_none());
    let second = &response.results[1];
    assert_eq!(second.id, "2");
    assert!(second.genres.is_none());
    assert!(second.platforms.is_none());
    assert!(second.tags.is_none());
    assert!(second.screenshots.is_none());
    assert!(second.esrb_rating.is_none());
}

#[test]
fn lists_that_the_provider_sends_empty_are_there_and_empty() {
    let doc = parse_document(
        "{\"id\":7,\"name\":\"Pong\",\"genres\":[],\"platforms\":[],\"tags\":[],\"short_screenshots\":[]}",
    )
    .expect("a document");
    let result = normalize_game(&doc).expect("a record");
    assert_eq!(result.genres.map(|list| list.len()), Some(0));
    assert_eq!(result.platforms.map(|list| list.len()), Some(0));
    assert_eq!(result.tags.map(|list| list.len()), Some(0));
    assert_eq!(result.screenshots.map(|list| list.len()), Some(0));
    assert!(result.esrb_rating.is_none());
}

#[test]
fn a_list_that_is_null_fails_the_record() {
    for key in ["genres", "platforms", "tags", "short_screenshots"] {
        let text = format!("{{\"id\":7,\"name\":\"Pong\",\"{}\":null}}", key);
        let doc = parse_document(&text).expect("a document");
        assert!(normalize_game(&doc).is_none());
    }
    let doc = parse_document("{\"id\":7,\"name\":\"Pong\",\"esrb_rating\":null}").expect("a document");
    assert!(normalize_game(&doc).expect("a record").esrb_rating.is_none());
}

#[test]
fn a_missing_background_image_leaves_the_poster_absent() {
    let with = "[{\"id\":1,\"name\":\"A\",\"background_image\":\"https://media.example/a.jpg\"},\
{\"id\":2,\"name\":\"B\"},{\"id\":3,\"name\":\"C\",\"background_image\":null}]";
    let body = listing("3", with);
    let response = client().search_results(&answered(&body), 1).expect("a page");
    assert_eq!(response.results.len(), 3);
    assert_eq!(response.results[0].poster_path.as_deref(), Some("https://media.example/a.jpg"));
    assert!(response.results[1].poster_path.is_none());
    assert!(response.results[2].poster_path.is_none());
    assert_eq!(response.results[1].id, "2");
    assert_eq!(response.results[2].title, "C");
}

#[test]
fn a_full_record_is_mapped_field_by_field_in_order() {
    let doc = parse_document(FULL_GAME).expect("a document");
    let result = normalize_game(&doc).expect("a record");
    assert_eq!(result.id, "3498");
    assert_eq!(result.title, "Grand Theft Auto V");
    assert_eq!(result.media_type, MediaType::Game);
    assert_eq!(result.poster_path.as_deref(), Some("https://media.example/gta.jpg"));
    assert_eq!(result.release_date.as_deref(), Some("2013-09-17"));
    match result.rating {
        Some(JsonNumber::Decimal(text)) => assert_eq!(text, "4.47"),
        other => panic!("expected a decimal rating, got {:?}", other),
    }
    assert!(result.description.is_none());
    assert_eq!(result.slug.as_deref(), Some("grand-theft-auto-v"));
    assert_eq!(result.metacritic, Some(92));
    assert_eq!(result.rating_top, Some(5));
    assert_eq!(result.playtime, Some(74));
    let genres = result.genres.expect("genres");
    assert_eq!(genres.len(), 2);
    assert_eq!((genres[0].id, genres[0].name.as_str(), genres[0].slug.as_str()), (4, "Action", "action"));
    assert_eq!((genres[1].id, genres[1].name.as_str(), genres[1].slug.as_str()), (3, "Adventure", "adventure"));
    let platforms = result.platforms.expect("platforms");
    assert_eq!(platforms.len(), 1);
    assert_eq!(platforms[0].id, 187);
    assert_eq!(platforms[0].name, "PlayStation 5");
    assert_eq!(platforms[0].slug, "playstation5");
    let esrb = result.esrb_rating.expect("esrb");
    assert_eq!((esrb.id, esrb.name.as_str(), esrb.slug.as_str()), (4, "Mature", "mature"));
    let tags = result.tags.expect("tags");
    assert_eq!(tags.len(), 1);
    assert_eq!((tags[0].id, tags[0].name.as_str(), tags[0].slug.as_str()), (31, "Singleplayer", "singleplayer"));
    let shots = result.screenshots.expect("screenshots");
    assert_eq!(shots.len(), 2);
    assert_eq!((shots[0].id, shots[0].image_url.as_str()), (-1, "https://media.example/1.jpg"));
    assert_eq!((shots[1].id, shots[1].image_url.as_str()), (1827221, "https://media.example/2.jpg"));
}

#[test]
fn an_integer_rating_is_kept_as_an_integer() {
    let doc = parse_document("{\"id\":7,\"name\":\"Pong\",\"rating\":4}").expect("a document");
    let result = normalize_game(&doc).expect("a record");
    assert!(matches!(result.rating, Some(JsonNumber::Unsigned(4))));
}

#[test]
fn results_that_are_no_list_fail_as_external_api() {
    for results in ["{\"id\":1}", "null", "\"many\"", "3", "true"] {
        let body = listing("45", results);
        decode_failure(client().search_results(&answered(&body), 1));
    }
    decode_failure(client().search_results(&answered("{\"count\":45}"), 1));
    decode_failure(client().search_results(&answered("[]"), 1));
    decode_failure(client().search_results(&answered("null"), 1));
}

#[test]
fn one_bad_record_fails_the_whole_page() {
    let good = "{\"id\":1,\"name\":\"A\"}";
    for bad in [
        "{\"name\":\"no id\"}",
        "{\"id\":2}",
        "{\"id\":\"2\",\"name\":\"B\"}",
        "{\"id\":-2,\"name\":\"B\"}",
        "{\"id\":4294967296,\"name\":\"B\"}",
        "{\"id\":2.5,\"name\":\"B\"}",
        "{\"id\":2,\"name\":5}",
        "{\"id\":2,\"name\":null}",
        "{\"id\":2,\"name\":\"B\",\"background_image\":7}",
        "{\"id\":2,\"name\":\"B\",\"rating\":\"high\"}",
        "{\"id\":2,\"name\":\"B\",\"metacritic\":-1}",
        "{\"id\":2,\"name\":\"B\",\"playtime\":2147483648}",
        "{\"id\":2,\"name\":\"B\",\"genres\":null}",
        "{\"id\":2,\"name\":\"B\",\"genres\":{}}",
        "{\"id\":2,\"name\":\"B\",\"genres\":[{\"id\":1,\"name\":\"x\"}]}",
        "{\"id\":2,\"name\":\"B\",\"platforms\":[{\"id\":1,\"name\":\"x\",\"slug\":\"x\"}]}",
        "{\"id\":2,\"name\":\"B\",\"esrb_rating\":\"M\"}",
        "{\"id\":2,\"name\":\"B\",\"tags\":[1]}",
        "{\"id\":2,\"name\":\"B\",\"short_screenshots\":[{\"id\":1}]}",
        "7",
    ] {
        let body = listing("2", &format!("[{},{}]", good, bad));
        decode_failure(client().search_results(&answered(&body), 1));
    }
}

#[test]
fn a_count_that_is_no_unsigned_integer_fails() {
    for count in ["-1", "1.5", "\"45\"", "null", "4294967296", "[45]"] {
        let body = listing(count, "[]");
        decode_failure(client().search_results(&answered(&body), 1));
    }
    let body = listing("4294967295", "[]");
    let response = client().search_results(&answered(&body), 1).expect("a page");
    assert_eq!(response.total_results, u32::MAX);
    assert_eq!(response.total_pages, 214_748_365);
}

#[test]
fn a_link_that_is_no_text_fails() {
    decode_failure(client().search_results(
        &answered("{\"count\":1,\"next\":5,\"previous\":null,\"results\":[]}"),
        1,
    ));
    let response = client()
        .search_results(&answered("{\"count\":1,\"results\":[]}"), 1)
        .expect("links may be missing");
    assert_eq!(response.total_pages, 1);
}

#[test]
fn a_body_that_is_no_json_fails_as_external_api() {
    for body in ["", "<html>busy</html>", "{\"count\":1", "{\"count\":1,}", "{} {}"] {
        decode_failure(client().search_results(&answered(body), 1));
        match client().raw_results(&answered(body)) {
            Err(AppError::ExternalApi(detail)) => assert_eq!(detail, "error decoding response body"),
            other => panic!("expected ExternalApi, got {:?}", other),
        }
        assert!(parse_document(body).is_none());
        assert!(raw_document(body).is_err());
    }
}

#[test]
fn a_call_without_an_answer_fails_as_external_api() {
    let reply = ProviderReply::Failed("operation timed out".to_string());
    match client().search_results(&reply, 1) {
        Err(AppError::ExternalApi(detail)) => assert_eq!(detail, "operation timed out"),
        other => panic!("expected ExternalApi, got {:?}", other),
    }
    match client().raw_results(&reply) {
        Err(AppError::ExternalApi(detail)) => assert_eq!(detail, "operation timed out"),
        other => panic!("expected ExternalApi, got {:?}", other),
    }
}

#[test]
fn a_status_outside_success_fails_without_reading_the_body() {
    let body = listing("1", "[{\"id\":1,\"name\":\"A\"}]");
    for (status, detail) in [
        (404u16, "unexpected response status 404"),
        (500, "unexpected response status 500"),
        (199, "unexpected response status 199"),
        (300, "unexpected response status 300"),
        (0, "unexpected response status 0"),
    ] {
        match client().search_results(&ProviderReply::Answered(status, body.clone()), 1) {
            Err(AppError::ExternalApi(text)) => assert_eq!(text, detail),
            other => panic!("expected ExternalApi, got {:?}", other),
        }
        match client().raw_results(&ProviderReply::Answered(status, body.clone())) {
            Err(AppError::ExternalApi(text)) => assert_eq!(text, detail),
            other => panic!("expected ExternalApi, got {:?}", other),
        }
    }
    for status in [200u16, 204, 299] {
        assert!(client().search_results(&ProviderReply::Answered(status, body.clone()), 1).is_ok());
    }
}

#[test]
fn raw_results_hand_the_document_on_unchanged() {
    let body = "{\"id\":3498,\"name\":\"Grand Theft Auto V\",\"extra\":[1,2.5,null]}";
    let value = client().raw_results(&answered(body)).expect("a document");
    assert_eq!(value, serde_json::from_str::<serde_json::Value>(body).expect("json"));
    assert_eq!(value["name"], "Grand Theft Auto V");
    assert_eq!(value["extra"][1], 2.5);
}

#[test]
fn parsed_document_keeps_kinds_and_values() {
    let doc = parse_document("{\"b\":{},\"a\":[1,-2,1.5,\"x\",true,null,18446744073709551615]}")
        .expect("a document");
    match doc {
        Json::Object(members) => {
            assert_eq!(members.len(), 2);
            let (name, value) = members.iter().find(|m| m.0 == "a").expect("member a");
            assert_eq!(name, "a");
            match value {
                Json::Array(items) => {
                    assert_eq!(items.len(), 7);
                    assert!(matches!(items[0], Json::Number(JsonNumber::Unsigned(1))));
                    assert!(matches!(items[1], Json::Number(JsonNumber::Signed(-2))));
                    match &items[2] {
                        Json::Number(JsonNumber::Decimal(text)) => assert_eq!(text, "1.5"),
                        other => panic!("expected a decimal, got {:?}", other),
                    }
                    match &items[3] {
                        Json::Text(text) => assert_eq!(text, "x"),
                        other => panic!("expected a text, got {:?}", other),
                    }
                    assert!(matches!(items[4], Json::Bool(true)));
                    assert!(matches!(items[5], Json::Null));
                    assert!(matches!(items[6], Json::Number(JsonNumber::Unsigned(u64::MAX))));
                },
                other => panic!("expected an array, got {:?}", other),
            }
            let (_, empty) = members.iter().find(|m| m.0 == "b").expect("member b");
            assert!(matches!(empty, Json::Object(inner) if inner.is_empty()));
        },
        other => panic!("expected an object, got {:?}", other),
    }
}

#[test]
fn items_keep_their_order() {
    let doc = parse_document("[10,20,30,40]").expect("a document");
    match doc {
        Json::Array(items) => {
            let numbers: Vec<Option<u32>> = items.iter().map(|item| item.to_u32()).collect();
            assert_eq!(numbers, vec![Some(10), Some(20), Some(30), Some(40)]);
        },
        other => panic!("expected an array, got {:?}", other),
    }
}

#[test]
fn field_finds_members_by_name() {
    let doc = parse_document("{\"id\":5,\"name\":\"n\",\"none\":null}").expect("a document");
    assert_eq!(doc.field("id").and_then(|v| v.to_u32()), Some(5));
    assert_eq!(doc.field("id").and_then(|v| v.to_i32()), Some(5));
    assert_eq!(doc.field("name").and_then(|v| v.to_text()), Some("n".to_string()));
    assert!(matches!(doc.field("none"), Some(Json::Null)));
    assert!(doc.field("missing").is_none());
    assert!(doc.field("Name").is_none());
    assert!(Json::Null.field("id").is_none());
}

#[test]
fn integers_are_read_within_their_range_only() {
    let read = |text: &str| parse_document(text).expect("a document");
    assert_eq!(read("4294967295").to_u32(), Some(u32::MAX));
    assert_eq!(read("4294967296").to_u32(), None);
    assert_eq!(read("-1").to_u32(), None);
    assert_eq!(read("0").to_u32(), Some(0));
    assert_eq!(read("2147483647").to_i32(), Some(i32::MAX));
    assert_eq!(read("2147483648").to_i32(), None);
    assert_eq!(read("-2147483648").to_i32(), Some(i32::MIN));
    assert_eq!(read("-2147483649").to_i32(), None);
    assert_eq!(read("1.0").to_u32(), None);
    assert_eq!(read("\"1\"").to_i32(), None);
}
