use media_backend::config::Config;
use media_backend::dates::{date_window, new_release_window, shift_days, upcoming_release_window};
use media_backend::external::{reply_body, ApiClient, OutboundRequest, ProviderReply, TIMEOUT_SECS};
use media_backend::rawg::PAGE_SIZE;
use media_backend::routes::{
    get_game_details, get_new_releases, get_popular_games, get_upcoming_games, search_game,
    GameSearchRequest, PageQuery,
};
use media_backend::text::decimal_text;

fn client() -> ApiClient {
    let config = Config::from_env(None, None, Some("k3y".to_string()), None, None)
        .expect("a configuration");
    ApiClient::new(config)
}

fn pairs(request: &OutboundRequest) -> Vec<(&str, &str)> {
    request.query.iter().map(|pair| (pair.0.as_str(), pair.1.as_str())).collect()
}

#[test]
fn a_search_asks_the_listing_for_twenty_of_a_page() {
    let request = client().search_rawg("zelda", 2);
    assert_eq!(request.url, "https://api.rawg.io/api/games");
    assert_eq!(
        pairs(&request),
        vec![("key", "k3y"), ("search", "zelda"), ("page", "2"), ("page_size", "20")]
    );
}

#[test]
fn details_ask_for_one_game() {
    let request = client().get_game_details("3498".to_string());
    assert_eq!(request.url, "https://api.rawg.io/api/games/3498");
    assert_eq!(pairs(&request), vec![("key", "k3y")]);
}

#[test]
fn popular_games_come_by_descending_rating() {
    let request = client().get_popular_games(1);
    assert_eq!(request.url, "https://api.rawg.io/api/games");
    assert_eq!(
        pairs(&request),
        vec![("key", "k3y"), ("ordering", "-rating"), ("page", "1"), ("page_size", "20")]
    );
}

#[test]
fn new_releases_look_thirty_days_back() {
    let request = client().get_new_releases(1_431_648_000, 3).expect("a request");
    assert_eq!(request.url, "https://api.rawg.io/api/games");
    assert_eq!(
        pairs(&request),
        vec![
            ("key", "k3y"),
            ("dates", "2015-04-15,2015-05-15"),
            ("ordering", "-added"),
            ("page", "3"),
            ("page_size", "20"),
        ]
    );
}

#[test]
fn upcoming_games_look_a_hundred_and_eighty_days_ahead() {
    let request = client().get_upcoming_games(1_431_648_000, 1).expect("a request");
    assert_eq!(
        pairs(&request),
        vec![
            ("key", "k3y"),
            ("dates", "2015-05-15,2015-11-11"),
            ("ordering", "-added"),
            ("page", "1"),
            ("page_size", "20"),
        ]
    );
}

#[test]
fn windows_follow_the_calendar() {
    assert_eq!(new_release_window(0).as_deref(), Some("1969-12-02,1970-01-01"));
    assert_eq!(upcoming_release_window(0).as_deref(), Some("1970-01-01,1970-06-30"));
    assert_eq!(new_release_window(86_399).as_deref(), Some("1969-12-02,1970-01-01"));
    assert_eq!(new_release_window(86_400).as_deref(), Some("1969-12-03,1970-01-02"));
    assert_eq!(new_release_window(1_709_164_800).as_deref(), Some("2024-01-30,2024-02-29"));
    assert_eq!(date_window(Some(0), Some(-1)).as_deref(), Some("1970-01-01,1969-12-31"));
    assert_eq!(date_window(None, Some(0)), None);
    assert_eq!(date_window(Some(0), None), None);
}

#[test]
fn windows_end_where_the_calendar_ends() {
    assert_eq!(new_release_window(i64::MIN), None);
    assert_eq!(new_release_window(i64::MAX), None);
    assert_eq!(upcoming_release_window(i64::MAX), None);
    assert_eq!(upcoming_release_window(i64::MAX - 180 * 86_400), None);
    assert!(client().get_new_releases(i64::MIN, 1).is_none());
    assert!(client().get_upcoming_games(i64::MAX, 1).is_none());
}

#[test]
fn days_shift_by_whole_days() {
    assert_eq!(shift_days(0, -30), Some(-2_592_000));
    assert_eq!(shift_days(100, 180), Some(15_552_100));
    assert_eq!(shift_days(5, 0), Some(5));
    assert_eq!(shift_days(i64::MAX, 1), None);
    assert_eq!(shift_days(i64::MIN, -1), None);
    assert_eq!(shift_days(i64::MAX - 86_400, 1), Some(i64::MAX));
}

#[test]
fn numbers_are_written_in_decimal() {
    assert_eq!(decimal_text(0), "0");
    assert_eq!(decimal_text(7), "7");
    assert_eq!(decimal_text(10), "10");
    assert_eq!(decimal_text(22511), "22511");
    assert_eq!(decimal_text(1_000_000), "1000000");
    assert_eq!(decimal_text(u32::MAX), "4294967295");
    for n in [0u32, 9, 10, 99, 100, 101, 4_294_967_295] {
        assert_eq!(decimal_text(n), n.to_string());
    }
}

#[test]
fn the_fixed_values_of_the_adapter() {
    assert_eq!(PAGE_SIZE, 20);
    assert_eq!(TIMEOUT_SECS, 10);
}

#[test]
fn a_reply_gives_its_body_on_success_only() {
    let reply = ProviderReply::Answered(200, "{}".to_string());
    assert_eq!(reply_body(&reply).expect("a body"), "{}");
    assert!(reply_body(&ProviderReply::Answered(301, "{}".to_string())).is_err());
    assert!(reply_body(&ProviderReply::Failed("reset".to_string())).is_err());
}

#[test]
fn handlers_ask_for_the_first_page_by_default() {
    let api = client();
    let request = GameSearchRequest { query: "zelda".to_string(), page: None };
    assert_eq!(
        pairs(&search_game(&api, &request)),
        vec![("key", "k3y"), ("search", "zelda"), ("page", "1"), ("page_size", "20")]
    );
    let request = GameSearchRequest { query: "zelda".to_string(), page: Some(2) };
    assert_eq!(pairs(&search_game(&api, &request))[2], ("page", "2"));
    assert_eq!(pairs(&get_popular_games(&api, &PageQuery { page: None }))[2], ("page", "1"));
    assert_eq!(pairs(&get_popular_games(&api, &PageQuery { page: Some(5) }))[2], ("page", "5"));
    let call = get_new_releases(&api, &PageQuery { page: None }, 0).expect("a request");
    assert_eq!(pairs(&call)[1], ("dates", "1969-12-02,1970-01-01"));
    assert_eq!(pairs(&call)[3], ("page", "1"));
    let call = get_upcoming_games(&api, &PageQuery { page: Some(4) }, 0).expect("a request");
    assert_eq!(pairs(&call)[1], ("dates", "1970-01-01,1970-06-30"));
    assert_eq!(pairs(&call)[3], ("page", "4"));
    assert_eq!(get_game_details(&api, "42".to_string()).url, "https://api.rawg.io/api/games/42");
}
