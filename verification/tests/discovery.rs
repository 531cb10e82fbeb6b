use polystrike_engine::api::server::{
    event_failed, event_started, finish_event_start, launch_markets, status_text, strategy_start,
    strategy_stop,
};
use polystrike_engine::api::strategy_registry::StrategyRegistry;
use polystrike_engine::discovery::json::{Json, Member};
use polystrike_engine::discovery::radar::{
    check_event_exists, event_candidates, event_status, event_url, events_url, existence_by_status,
    extract_yes_token_id, finish_5m_markets, finish_markets, first_id, get_client, init_radar_client, next_page, page_status,
    parse_expiry_from_slug, parse_f64_field, parse_number_from_text, strike_in_dollars, strike_of,
    updown_5m_candidates, user_agent, Candidate, MarketInfo, Radar, RadarError,
};
use polystrike_engine::discovery::{
    next_slug_at, predict_current_5m_slug, predict_next_slug, slug_5m_at, slug_of_day,
};
use polystrike_engine::scalar::Scalar;

fn scalar(x: f64) -> Scalar {
    Scalar::from_bits(x.to_bits())
}

fn text(t: &str) -> Json {
    Json::Text(t.to_string())
}

fn object(members: Vec<(&str, Json)>) -> Json {
    Json::Object(
        members.into_iter().map(|(name, value)| Member { name: name.to_string(), value }).collect(),
    )
}

fn market(token: &str, line: Json, end_date: &str) -> Json {
    object(vec![
        ("active", Json::Bool(true)),
        ("closed", Json::Bool(false)),
        ("clobTokenIds", Json::Array(vec![text(token), text("other")])),
        ("line", line),
        ("groupItemTitle", text("above $66,000")),
        ("endDate", text(end_date)),
    ])
}

const DATE: &str = "2026-03-14T00:00:00Z";

#[test]
fn slugs_tell_their_five_minutes() {
    assert_eq!(slug_5m_at(1734567890), "btc-updown-5m-1734567600");
    assert_eq!(slug_5m_at(299), "btc-updown-5m-0");
    assert_eq!(slug_5m_at(-301), "btc-updown-5m--300");
    assert_eq!(slug_5m_at(i64::MIN), format!("btc-updown-5m-{}", i64::MIN / 300 * 300));
    assert_eq!(slug_5m_at(i64::MAX), format!("btc-updown-5m-{}", i64::MAX / 300 * 300));
    assert_eq!(parse_expiry_from_slug(&slug_5m_at(1734567890)), Some(1734567600));
    let now = parse_expiry_from_slug(&predict_current_5m_slug()).unwrap();
    assert_eq!(now % 300, 0);
    assert!(now > 1_700_000_000);
}

#[test]
fn slugs_name_the_next_day() {
    assert_eq!(next_slug_at(1709164800).as_deref(), Some("bitcoin-above-on-3-1"));
    assert_eq!(next_slug_at(1709078400).as_deref(), Some("bitcoin-above-on-2-29"));
    assert_eq!(next_slug_at(1735603200).as_deref(), Some("bitcoin-above-on-1-1"));
    assert!(next_slug_at(i64::MAX).is_none());
    assert!(next_slug_at(i64::MAX - 86_400).is_none());
    assert_eq!(next_slug_at(-86_401).as_deref(), Some("bitcoin-above-on-12-31"));
    assert_eq!(next_slug_at(-86_400).as_deref(), Some("bitcoin-above-on-1-1"));
    assert_eq!(next_slug_at(-1).as_deref(), Some("bitcoin-above-on-1-1"));
    assert_eq!(next_slug_at(0).as_deref(), Some("bitcoin-above-on-1-2"));
    // 1900 and 2100 have no 29 February, 2000 has one.
    assert_eq!(next_slug_at(-2_204_064_000).as_deref(), Some("bitcoin-above-on-2-28"));
    assert_eq!(next_slug_at(-2_203_977_600).as_deref(), Some("bitcoin-above-on-3-1"));
    assert_eq!(next_slug_at(951_696_000).as_deref(), Some("bitcoin-above-on-2-29"));
    assert_eq!(next_slug_at(4_107_456_000).as_deref(), Some("bitcoin-above-on-3-1"));
    // The first and the last day that the calendar has.
    assert!(next_slug_at(-8_334_601_228_801 - 86_400).is_none());
    assert_eq!(
        next_slug_at(-8_334_601_228_800 - 86_400).as_deref(),
        Some("bitcoin-above-on-1-1")
    );
    assert_eq!(
        next_slug_at(8_210_266_876_799 - 86_400).as_deref(),
        Some("bitcoin-above-on-12-31")
    );
    assert!(next_slug_at(8_210_266_876_800 - 86_400).is_none());
    assert_eq!(slug_of_day(12, 31), "bitcoin-above-on-12-31");
    assert!(predict_next_slug().unwrap().starts_with("bitcoin-above-on-"));
}

#[test]
fn slugs_end_in_ten_digits() {
    assert_eq!(parse_expiry_from_slug("btc-updown-5m-1734567890"), Some(1734567890));
    assert_eq!(parse_expiry_from_slug("1734567890"), Some(1734567890));
    assert_eq!(parse_expiry_from_slug("btc-updown-5m-173456789"), None);
    assert_eq!(parse_expiry_from_slug("btc-updown-5m-17345678901"), None);
    assert_eq!(parse_expiry_from_slug("btc-updown-5m-173456789x"), None);
    assert_eq!(parse_expiry_from_slug("btc-updown-5m-"), None);
    assert_eq!(parse_expiry_from_slug(""), None);
    assert_eq!(parse_expiry_from_slug("btc-9999999999"), Some(9999999999));
}

#[test]
fn numbers_are_found_in_texts() {
    let found = |t: &str| parse_number_from_text(t);
    assert_eq!(found("above $66,000").as_deref(), Some("66"));
    assert_eq!(found("-12.5%").as_deref(), Some("-12.5"));
    assert_eq!(found("a-b3").as_deref(), None);
    assert_eq!(found("1-2").as_deref(), Some("1"));
    assert_eq!(found("1.2.3 x").as_deref(), Some("1.2.3"));
    assert_eq!(found("v.").as_deref(), None);
    assert_eq!(found("--5").as_deref(), None);
    assert_eq!(found("none").as_deref(), None);
    assert_eq!(found("").as_deref(), None);
}

#[test]
fn token_ids_stand_in_an_array_or_a_text() {
    let ids = |v: Json| object(vec![("clobTokenIds", v)]);
    assert_eq!(
        extract_yes_token_id(&ids(Json::Array(vec![text("7"), text("8")]))).as_deref(),
        Some("7")
    );
    assert_eq!(extract_yes_token_id(&ids(text("[\"71\", \"72\"]"))).as_deref(), Some("71"));
    assert_eq!(extract_yes_token_id(&ids(text("[7]"))), None);
    assert_eq!(extract_yes_token_id(&ids(text("[]"))), None);
    assert_eq!(extract_yes_token_id(&ids(text("{\"a\": 1}"))), None);
    assert_eq!(extract_yes_token_id(&ids(text("not json"))), None);
    assert_eq!(extract_yes_token_id(&ids(Json::Array(vec![]))), None);
    assert_eq!(extract_yes_token_id(&ids(Json::Array(vec![Json::Null]))), None);
    assert_eq!(extract_yes_token_id(&ids(Json::Null)), None);
    assert_eq!(extract_yes_token_id(&object(vec![])), None);
    assert_eq!(first_id(Some(vec![None, Some("x".to_string())])), None);
    assert_eq!(first_id(None), None);
}

#[test]
fn open_markets_become_candidates() {
    let closed = object(vec![
        ("active", Json::Bool(true)),
        ("closed", Json::Bool(true)),
        ("clobTokenIds", Json::Array(vec![text("9")])),
    ]);
    let silent = object(vec![
        ("active", Json::Bool(true)),
        ("clobTokenIds", Json::Array(vec![text("9")])),
    ]);
    let payload = Json::Array(vec![
        object(vec![("title", text("no markets"))]),
        object(vec![(
            "markets",
            Json::Array(vec![
                closed,
                market("1", Json::Number(scalar(66.0)), DATE),
                silent,
                market("2", text("67.5"), DATE),
            ]),
        )]),
        object(vec![("markets", Json::Array(vec![market("3", Json::Null, DATE)]))]),
    ]);
    let found = event_candidates(&payload).unwrap();
    let tokens: Vec<&str> = found.iter().map(|c| c.token_id.as_str()).collect();
    assert_eq!(tokens, ["1", "2", "3"]);
    assert_eq!(found[0].line_number, Some(scalar(66.0)));
    assert_eq!(found[0].line_text, None);
    assert_eq!(found[1].line_text.as_deref(), Some("67.5"));
    assert_eq!(found[2].title_number.as_deref(), Some("66"));
    assert_eq!(found[2].end_date.as_deref(), Some(DATE));
    assert!(matches!(event_candidates(&Json::Null), Err(RadarError::NotAnArray)));
}

#[test]
fn five_minute_events_are_taken_shortly_before_expiry() {
    let soon = "2023-11-14T22:15:00Z";
    let event = |slug: &str, token: &str| {
        object(vec![
            ("slug", text(slug)),
            ("markets", Json::Array(vec![market(token, Json::Number(scalar(1.0)), soon)])),
        ])
    };
    let dated = object(vec![
        ("slug", text("eth-updown-5m-next")),
        ("endDate", text("1970-01-01T00:02:00Z")),
        ("markets", Json::Array(vec![market("5", Json::Number(scalar(1.0)), DATE)])),
    ]);
    let undated = object(vec![
        ("slug", text("eth-updown-5m-next")),
        ("endDate", text("soon")),
        ("markets", Json::Array(vec![market("6", Json::Number(scalar(1.0)), DATE)])),
    ]);
    let events = vec![
        event("btc-updown-5m-1700000060", "1"),
        event("btc-updown-5m-1700000059", "2"),
        event("btc-updown-5m-1700000180", "3"),
        event("btc-updown-5m-1700000181", "4"),
        event("btc-updown-15m-1700000100", "7"),
        dated,
        undated,
    ];
    let tokens = |now: i64| -> Vec<String> {
        updown_5m_candidates(&events, now).into_iter().map(|c| c.token_id).collect()
    };
    assert_eq!(tokens(1_700_000_000), ["1", "3"]);
    assert_eq!(tokens(0), ["5"]);
    let candidates = updown_5m_candidates(&events, 1_700_000_000);
    let strikes = vec![Some(scalar(1.0)), Some(scalar(2.0))];
    let found = finish_5m_markets(&candidates, &strikes, 1_700_000_000).unwrap();
    let kept: Vec<&str> = found.iter().map(|m| m.token_id.as_str()).collect();
    assert_eq!(kept, ["1", "3"]);
    assert_eq!(found[0].expiry_timestamp, 1_700_000_100);
    assert_eq!(found[1].strike_price, scalar(2.0));
}

#[test]
fn five_minute_markets_expire_in_one_to_three_minutes() {
    let candidate = |token: &str, end_date: &str| Candidate {
        token_id: token.to_string(),
        line_number: None,
        line_text: None,
        title_number: None,
        end_date: Some(end_date.to_string()),
    };
    let mut all = vec![
        candidate("1", "1970-01-01T00:00:59Z"),
        candidate("2", "1970-01-01T00:01:00Z"),
        candidate("3", DATE),
        candidate("4", "1970-01-01T00:03:00Z"),
        candidate("5", "1970-01-01T00:03:01Z"),
    ];
    let mut strikes = vec![Some(scalar(1.0)); 5];
    let found = finish_5m_markets(&all, &strikes, 0).unwrap();
    let kept: Vec<&str> = found.iter().map(|m| m.token_id.as_str()).collect();
    assert_eq!(kept, ["2", "4"]);
    assert_eq!(finish_markets(&all, &strikes).unwrap().len(), 5);
    all.push(candidate("6", "never"));
    strikes.push(Some(scalar(1.0)));
    assert!(matches!(
        finish_5m_markets(&all, &strikes, 0),
        Err(RadarError::InvalidEndDate(_))
    ));
}

#[test]
fn pages_are_read_until_one_is_not_full() {
    assert_eq!(next_page(0, 0), None);
    assert_eq!(next_page(99, 0), None);
    assert_eq!(next_page(100, 0), Some(100));
    assert_eq!(next_page(100, 300), Some(400));
    assert_eq!(next_page(0x1_0000_0000, 0), Some(100));
}

#[test]
fn strikes_come_from_line_or_title() {
    let mut c = Candidate {
        token_id: "1".to_string(),
        line_number: Some(scalar(66.0)),
        line_text: None,
        title_number: None,
        end_date: None,
    };
    assert_eq!(strike_of(&c, Some(scalar(1.0)), Some(scalar(2.0))), Some(scalar(66.0)));
    c.line_number = None;
    assert_eq!(strike_of(&c, Some(scalar(1.0)), Some(scalar(2.0))), Some(scalar(1.0)));
    assert_eq!(strike_of(&c, None, Some(scalar(2.0))), Some(scalar(2.0)));
    assert_eq!(strike_of(&c, None, None), None);
    assert_eq!(parse_f64_field(None, Some(scalar(3.0))), Some(scalar(3.0)));
    assert_eq!(strike_in_dollars(scalar(66.0), scalar(66000.0)), scalar(66000.0));
    assert_eq!(strike_in_dollars(scalar(10.0), scalar(10000.0)), scalar(10.0));
    assert_eq!(strike_in_dollars(scalar(1000.0), scalar(1e6)), scalar(1000.0));
    assert_eq!(strike_in_dollars(scalar(999.9), scalar(999900.0)), scalar(999900.0));
}

#[test]
fn candidates_become_markets() {
    let candidate = |token: &str, end_date: Option<&str>| Candidate {
        token_id: token.to_string(),
        line_number: None,
        line_text: None,
        title_number: None,
        end_date: end_date.map(|d| d.to_string()),
    };
    let all = vec![
        candidate("1", Some("1970-01-01T00:01:40Z")),
        candidate("2", None),
        candidate("3", Some("never")),
        candidate("4", Some("1970-01-01T01:00:00+01:00")),
    ];
    let strikes = vec![Some(scalar(5.0)), Some(scalar(6.0)), None, Some(scalar(7.0))];
    let found = finish_markets(&all, &strikes).unwrap();
    assert_eq!(found.len(), 2);
    assert_eq!(found[0].token_id, "1");
    assert_eq!(found[0].strike_price, scalar(5.0));
    assert_eq!(found[0].expiry_timestamp, 100);
    assert_eq!(found[1].token_id, "4");
    assert_eq!(found[1].expiry_timestamp, 0);
    let strikes = vec![None, None, Some(scalar(6.0)), None];
    let failed = finish_markets(&all, &strikes).unwrap_err();
    assert!(matches!(failed, RadarError::InvalidEndDate(_)));
    assert!(failed.message().is_none());
}

#[test]
fn answers_of_the_service_are_judged_by_status() {
    assert_eq!(event_url("abc"), "https://gamma-api.polymarket.com/events?slug=abc");
    assert_eq!(events_url(), "https://gamma-api.polymarket.com/events");
    assert!(event_status(200, "abc").is_ok());
    assert_eq!(
        event_status(403, "abc").unwrap_err().message().unwrap(),
        "403 Forbidden: IP may be blocked for slug 'abc'"
    );
    assert!(page_status(500).is_ok());
    assert_eq!(page_status(403).unwrap_err().message().unwrap(), "Gamma API 403");
    assert_eq!(existence_by_status(404), Some(false));
    assert_eq!(existence_by_status(403), Some(false));
    assert_eq!(existence_by_status(200), None);
    assert!(check_event_exists(&Json::Array(vec![Json::Null])).unwrap());
    assert!(!check_event_exists(&Json::Array(vec![])).unwrap());
    assert_eq!(
        check_event_exists(&Json::Null).unwrap_err().message().unwrap(),
        "gamma events response is not an array"
    );
}

#[test]
fn json_members_are_found_by_name() {
    let v = object(vec![("a", Json::Bool(true)), ("b", text("t")), ("c", Json::Array(vec![]))]);
    assert_eq!(v.get_bool("a"), Some(true));
    assert_eq!(v.get_bool("b"), None);
    assert_eq!(v.get_text("b").map(|t| t.as_str()), Some("t"));
    assert!(v.get_text("a").is_none());
    assert!(v.get_array("c").is_some() && v.get_array("a").is_none());
    assert!(v.get("d").is_none() && Json::Null.get("a").is_none());
}

#[test]
fn the_first_client_is_kept() {
    let mut radar = Radar::new();
    assert!(radar.client().is_none());
    assert!(matches!(
        init_radar_client(&mut radar, Some("::not a proxy::")),
        Err(RadarError::Client(_))
    ));
    assert!(radar.client().is_none());
    assert!(init_radar_client(&mut radar, Some("http://localhost:8080")).is_ok());
    let held = radar.client().unwrap();
    assert_eq!(held.proxy_url(), Some("http://localhost:8080"));
    assert_eq!(held.user_agent(), user_agent());
    assert!(init_radar_client(&mut radar, None).is_ok());
    assert_eq!(radar.client().unwrap().proxy_url(), Some("http://localhost:8080"));
    assert!(matches!(
        init_radar_client(&mut radar, Some("::not a proxy::")),
        Err(RadarError::Client(_))
    ));
    assert_eq!(radar.client().unwrap().proxy_url(), Some("http://localhost:8080"));
    assert_eq!(get_client(&mut radar).unwrap().proxy_url(), Some("http://localhost:8080"));
    assert!(user_agent().starts_with("Mozilla/5.0 (Macintosh; Intel Mac OS X 10_15_7) AppleWebKit"));
}

#[test]
fn without_a_client_one_is_set_up_directly() {
    let mut radar = Radar::new();
    let built = get_client(&mut radar).unwrap();
    assert_eq!(built.proxy_url(), None);
    assert_eq!(built.user_agent(), user_agent());
    assert!(built.client().get("https://localhost/").build().is_ok());
    assert!(radar.client().is_some());
}

#[test]
fn a_market_runs_once() {
    let mut registry = StrategyRegistry::new();
    let token = registry.try_register("a".to_string()).unwrap();
    assert!(registry.try_register("a".to_string()).is_none());
    assert_eq!(registry.len(), 1);
    assert!(registry.get_token("a").unwrap() == token);
    assert!(registry.get_token("b").is_none());
    assert!(!token.is_cancelled());
    assert!(registry.last_stopped().is_none());
    let other = registry.try_register("b".to_string()).unwrap();
    assert!(other != token);
    assert!(registry.cancel("a"));
    assert!(token.is_cancelled() && !other.is_cancelled());
    assert!(*registry.last_stopped().unwrap().token() == token);
    assert!(!registry.cancel("a"));
    assert_eq!(registry.len(), 1);
    let again = registry.try_register("a".to_string()).unwrap();
    assert!(again != token && !again.is_cancelled());
}

#[test]
fn registering_again_stops_what_ran_before() {
    let mut registry = StrategyRegistry::default();
    let first = registry.register("a".to_string());
    let second = registry.register("a".to_string());
    assert!(first.is_cancelled() && !second.is_cancelled());
    assert!(*registry.last_stopped().unwrap().token() == first);
    assert_eq!(registry.len(), 1);
    assert!(registry.get_token("a").unwrap() == second);
    registry.deregister("a");
    assert!(!second.is_cancelled());
    assert_eq!(registry.len(), 0);
    let third = registry.register("a".to_string());
    assert!(registry.take("a").unwrap() == third);
    assert!(!third.is_cancelled());
}

#[test]
fn requests_are_answered() {
    let mut registry = StrategyRegistry::new();
    let (token, reply) = strategy_start(&mut registry, "7").ok().unwrap();
    assert_eq!((reply.status, reply.message.as_str()), (200, "Strategy started for token 7"));
    let refused = strategy_start(&mut registry, "7").err().unwrap();
    assert_eq!(
        (refused.status, refused.message.as_str()),
        (400, "Strategy for token 7 already running")
    );
    assert!(!token.is_cancelled());
    assert!(registry.last_stopped().is_none());
    assert!(registry.get_token("7").unwrap() == token);
    let reply = strategy_stop(&mut registry, "7");
    assert_eq!((reply.status, reply.message.as_str()), (200, "Strategy stopped for token 7"));
    assert!(token.is_cancelled());
    let reply = strategy_stop(&mut registry, "7");
    assert_eq!((reply.status, reply.message.as_str()), (404, "No running strategy for token 7"));
    let reply = event_started("abc", 12);
    assert_eq!(
        (reply.status, reply.message.as_str()),
        (200, "Event radar started for slug abc: 12 markets launched.")
    );
    let reply = event_failed("abc", "timeout");
    assert_eq!(
        (reply.status, reply.message.as_str()),
        (502, "Failed to discover markets for slug abc: timeout")
    );
    assert_eq!(status_text(), "running");
}

#[test]
fn an_event_starts_each_market_once() {
    let mut registry = StrategyRegistry::new();
    let running = registry.register("2".to_string());
    let market = |token: &str| MarketInfo {
        token_id: token.to_string(),
        strike_price: scalar(1.0),
        expiry_timestamp: 5,
    };
    let markets = vec![market("1"), market("2"), market("1"), market("3")];
    let launches = launch_markets(&mut registry, &markets);
    let started: Vec<&str> = launches.iter().map(|l| l.market.token_id.as_str()).collect();
    assert_eq!(started, ["1", "3"]);
    assert_eq!(registry.len(), 3);
    assert!(registry.get_token("2").unwrap() == running);
    assert!(registry.get_token("3").unwrap() == launches[1].token);
    assert!(launch_markets(&mut registry, &markets).is_empty());
    assert!(registry.last_stopped().is_none());
    assert!(!running.is_cancelled() && !launches[0].token.is_cancelled());
}

#[test]
fn stopping_one_market_leaves_the_others_running() {
    let mut registry = StrategyRegistry::new();
    let (first, _) = strategy_start(&mut registry, "1").ok().unwrap();
    let (second, _) = strategy_start(&mut registry, "2").ok().unwrap();
    assert_eq!(strategy_stop(&mut registry, "3").status, 404);
    assert!(registry.last_stopped().is_none());
    assert_eq!(strategy_stop(&mut registry, "2").status, 200);
    assert!(!first.is_cancelled() && second.is_cancelled());
    assert!(*registry.last_stopped().unwrap().token() == second);
    registry.deregister("1");
    assert!(!first.is_cancelled());
    assert!(*registry.last_stopped().unwrap().token() == second);
}

#[test]
fn the_current_event_is_the_last_that_was_found() {
    let mut current = None;
    let reply = finish_event_start(&mut current, "abc", Err("timeout".to_string()));
    assert_eq!(
        (reply.status, reply.message.as_str()),
        (502, "Failed to discover markets for slug abc: timeout")
    );
    assert_eq!(current, None);
    let reply = finish_event_start(&mut current, "abc", Ok(0));
    assert_eq!(
        (reply.status, reply.message.as_str()),
        (200, "Event radar started for slug abc: 0 markets launched.")
    );
    assert_eq!(current.as_deref(), Some("abc"));
    let _ = finish_event_start(&mut current, "def", Err("timeout".to_string()));
    assert_eq!(current.as_deref(), Some("abc"));
    let _ = finish_event_start(&mut current, "def", Ok(3));
    assert_eq!(current.as_deref(), Some("def"));
}
