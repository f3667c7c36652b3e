use steam_current_game::client::Reporter;
use steam_current_game::config;
use steam_current_game::monitor;
use steam_current_game::monitor::{Display, NameCache, StateUpdateResult, StoreReply, TickStep};
use steam_current_game::pages;
use steam_current_game::pages::HeaderName;
use steam_current_game::store;
use steam_current_game::svg;
use steam_current_game::store::{StoreData, StoreResponse};

fn seconds(n: u64) -> u64 {
    n * 1_000_000_000
}

#[test]
fn addresses_of_the_store() {
    assert_eq!(
        store::appdetails_url("https://store.steampowered.com", 2358720).as_deref(),
        Some("https://store.steampowered.com/api/appdetails?appids=2358720&l=schinese")
    );
    assert_eq!(
        store::appdetails_url("HTTP://Proxy.example:80/steam", 10).as_deref(),
        Some("http://proxy.example/steam/api/appdetails?appids=10&l=schinese")
    );
    assert_eq!(store::appdetails_url("not an address", 10), None);
    assert_eq!(store::appdetails_url("", 10), None);
}

#[test]
fn entries_of_the_store() {
    let body = r#"{ "10": {"success":true,"data":{"name":"反恐精英","type":"game"}}, "20": null }"#;
    assert_eq!(
        store::app_entry(body.as_bytes(), 10).as_deref(),
        Some(r#"{"data":{"name":"反恐精英","type":"game"},"success":true}"#)
    );
    assert_eq!(store::app_entry(body.as_bytes(), 20).as_deref(), Some("null"));
    assert_eq!(store::app_entry(body.as_bytes(), 1), None);
    assert_eq!(store::app_entry(b"null", 1), None);
    assert_eq!(store::app_entry(b"[1,2]", 1), None);
    assert_eq!(store::app_entry(b"<html>", 1), None);
    assert_eq!(store::app_entry(&[0xff, 0xfe], 1), None);
}

#[test]
fn fetched_names() {
    let named = StoreResponse { success: true, data: Some(StoreData { name: "CS2".to_string() }) };
    let failed = StoreResponse { success: false, data: Some(StoreData { name: "CS2".to_string() }) };
    assert_eq!(monitor::fetched_name(7, StoreReply::Entry(Some(named))), Ok("CS2".to_string()));
    assert_eq!(monitor::fetched_name(7, StoreReply::Entry(Some(failed))), Err("未知游戏 (7)".to_string()));
    assert_eq!(monitor::fetched_name(7, StoreReply::Entry(None)), Err("未知游戏 (7)".to_string()));
    assert_eq!(monitor::fetched_name(7, StoreReply::Unreachable), Err("网络错误 (7)".to_string()));
    let empty = StoreResponse { success: true, data: None };
    assert_eq!(store::entry_name(Some(empty)), None);
}

#[test]
fn running_application() {
    assert_eq!(monitor::running_app_id(Some(730)), Some(730));
    assert_eq!(monitor::running_app_id(Some(0)), None);
    assert_eq!(monitor::running_app_id(None), None);
}

#[test]
fn store_is_asked_once() {
    let mut cache = NameCache::new();
    assert!(matches!(cache.begin_tick(Some(730)), TickStep::FetchName(730)));
    let update = cache.after_fetch(730, Err("未知游戏 (730)".to_string()));
    assert!(matches!(update, StateUpdateResult::ErrorWithMsg(m) if m == "未知游戏 (730)"));
    assert!(matches!(cache.begin_tick(Some(730)), TickStep::FetchName(730)));
    let update = cache.after_fetch(730, Ok("CS2".to_string()));
    assert!(matches!(update, StateUpdateResult::Success(name) if name == "CS2"));
    assert!(matches!(cache.begin_tick(Some(730)), TickStep::Apply(StateUpdateResult::Success(name)) if name == "CS2"));
    assert!(matches!(cache.begin_tick(Some(731)), TickStep::FetchName(731)));
    assert!(matches!(cache.begin_tick(None), TickStep::Apply(StateUpdateResult::Success(name)) if name == "未在游玩"));
}

#[test]
fn clock_follows_the_game() {
    let mut display = Display::new();
    assert_eq!((display.current_game_name.as_str(), display.session_start_time), ("未在游玩", None));
    display.apply(StateUpdateResult::Success("未在游玩".to_string()), 1);
    assert_eq!(display.session_start_time, None);
    display.apply(StateUpdateResult::Success("CS2".to_string()), 2);
    assert_eq!((display.current_game_name.as_str(), display.session_start_time), ("CS2", Some(2)));
    display.apply(StateUpdateResult::Success("CS2".to_string()), 3);
    assert_eq!(display.session_start_time, Some(2));
    display.apply(StateUpdateResult::ErrorWithMsg("网络错误 (5)".to_string()), 4);
    assert_eq!((display.current_game_name.as_str(), display.session_start_time), ("网络错误 (5)", Some(2)));
    display.apply(StateUpdateResult::Unchanged, 5);
    assert_eq!((display.current_game_name.as_str(), display.session_start_time), ("网络错误 (5)", Some(2)));
    display.apply(StateUpdateResult::Success("CS2".to_string()), 6);
    assert_eq!(display.session_start_time, Some(6));
    display.apply(StateUpdateResult::Success("Dota 2".to_string()), 7);
    assert_eq!((display.current_game_name.as_str(), display.session_start_time), ("Dota 2", Some(7)));
    display.apply(StateUpdateResult::Success("未在游玩".to_string()), 8);
    assert_eq!((display.current_game_name.as_str(), display.session_start_time), ("未在游玩", None));
}

#[test]
fn nothing_is_shown_while_nothing_runs() {
    let display = Display::new();
    let page = pages::current_game_page(&display, seconds(5));
    assert_eq!(page.body, "");
    assert_eq!(display.content("%GameName%", 0), "");
}

#[test]
fn card_of_the_monitor() {
    let mut display = Display::new();
    display.apply(StateUpdateResult::Success("黑神话：悟空".to_string()), seconds(1));
    assert_eq!(display.content("%Status% %GameName% %PlayTime%", seconds(62)), "正在游玩 黑神话：悟空 01:01");
    let page = pages::current_game_page(&display, seconds(62));
    let expected = svg::SVG_TEMPLATE
        .replace("%Status%", "正在游玩")
        .replace("%GameName%", "黑神话：悟空")
        .replace("%PlayTime%", "01:01")
        .replace("%GameNameColor%", "#66C0F4");
    assert_eq!(page.body, expected);
    assert!(page.body.contains("<div class=\"game-name\">黑神话：悟空</div>"));
    assert!(page.body.contains("color: #66C0F4;"));
    assert!(page.body.contains("<span> 正在游玩 </span>"));
    assert!(page.body.contains("> 01:01 </span>"));
    assert!(!page.body.contains("%Status%"));
    assert!(page.body.starts_with("<svg xmlns="));
    assert!(page.body.ends_with("</svg>"));
    assert_eq!(pages::get_svg_template(), svg::SVG_TEMPLATE);
}

#[test]
fn card_shows_names_with_percent_signs() {
    for name in ["100% Orange Juice", "%", "50% PlayTime%", "%Status%", "%GameName%"] {
        let mut display = Display::new();
        display.apply(StateUpdateResult::Success(name.to_string()), seconds(1));
        let body = pages::current_game_page(&display, seconds(62)).body;
        assert!(body.contains(&format!("<div class=\"game-name\">{name}</div>")));
        assert!(body.contains("> 01:01 </span>"));
        assert!(body.contains("<span> 正在游玩 </span>"));
        assert!(body.contains("color: #66C0F4;"));
    }
    let mut display = Display::new();
    display.apply(StateUpdateResult::Success("%PlayTime%".to_string()), seconds(1));
    let body = pages::current_game_page(&display, seconds(62)).body;
    assert!(body.contains("<div class=\"game-name\">01:01</div>"));
}

#[test]
fn failure_starts_a_clock_that_stands_still() {
    let mut display = Display::new();
    display.apply(StateUpdateResult::ErrorWithMsg("网络错误 (5)".to_string()), seconds(1));
    assert_eq!((display.current_game_name.as_str(), display.session_start_time), ("网络错误 (5)", Some(seconds(1))));
    assert_eq!(display.content("%GameName% %PlayTime%", seconds(99)), "网络错误 (5) 01:38");
    display.apply(StateUpdateResult::ErrorWithMsg("网络错误 (5)".to_string()), seconds(2));
    assert_eq!(display.session_start_time, Some(seconds(1)));
    display.apply(StateUpdateResult::ErrorWithMsg("未知游戏 (5)".to_string()), seconds(3));
    assert_eq!((display.current_game_name.as_str(), display.session_start_time), ("未知游戏 (5)", Some(seconds(1))));
    display.apply(StateUpdateResult::Success("未在游玩".to_string()), seconds(4));
    assert_eq!(display.session_start_time, None);
}

#[test]
fn clock_runs_just_while_an_application_runs() {
    let mut cache = NameCache::new();
    let mut display = Display::new();
    for (now, running, reply) in [
        (1, Some(730), StoreReply::Unreachable),
        (2, Some(730), StoreReply::Entry(None)),
        (3, None, StoreReply::Unreachable),
        (4, Some(730), StoreReply::Entry(Some(StoreResponse { success: true, data: Some(StoreData { name: "CS2".to_string() }) }))),
        (5, Some(730), StoreReply::Unreachable),
        (6, None, StoreReply::Unreachable),
        (7, Some(10), StoreReply::Entry(None)),
    ] {
        let update = match cache.begin_tick(running) {
            TickStep::Apply(update) => update,
            TickStep::FetchName(app_id) => cache.after_fetch(app_id, monitor::fetched_name(app_id, reply)),
        };
        display.apply(update, now);
        assert_eq!(display.session_start_time.is_some(), running.is_some());
    }
    assert_eq!((display.current_game_name.as_str(), display.session_start_time), ("未知游戏 (10)", Some(7)));
}

#[test]
fn game_without_start_shows_zero() {
    let display = Display { current_game_name: "CS2".to_string(), session_start_time: None };
    assert_eq!(display.content("%GameName% %PlayTime%", seconds(99)), "CS2 00:00");
}

#[test]
fn headers_of_the_pages() {
    let list = |headers: &Vec<pages::Header>| -> Vec<(HeaderName, &'static str)> {
        headers.iter().map(|h| (h.name, h.value)).collect()
    };
    assert_eq!(
        list(&pages::current_game_page(&Display::new(), 0).headers),
        vec![
            (HeaderName::ContentType, "text/html; charset=utf-8"),
            (HeaderName::CacheControl, "no-cache, no-store, must-revalidate"),
            (HeaderName::Pragma, "no-cache"),
            (HeaderName::Expires, "0"),
            (HeaderName::AccessControlAllowOrigin, "*"),
        ]
    );
    let root = pages::monitor_root_page();
    assert_eq!(
        list(&root.headers),
        vec![
            (HeaderName::ContentType, "text/html; charset=utf-8"),
            (HeaderName::CacheControl, "no-cache"),
        ]
    );
    assert!(root.body.starts_with("<!DOCTYPE html>"));
    assert!(root.body.contains("const API_URL = \"/current\";"));
    assert!(root.body.ends_with("</html>"));
    assert_eq!(
        list(&pages::current_game_headers()),
        vec![
            (HeaderName::ContentType, "application/json; charset=utf-8"),
            (HeaderName::CacheControl, "no-cache, no-store, must-revalidate"),
            (HeaderName::AccessControlAllowOrigin, "*"),
        ]
    );
    let page = pages::server_root_page("<a>%token%</a>%token%", "me");
    assert_eq!(page.body, "<a>me</a>me");
    assert_eq!(list(&page.headers), vec![(HeaderName::ContentType, "text/html; charset=utf-8")]);
}

#[test]
fn reported_until_taken_in() {
    let mut reporter = Reporter::new("me".to_string());
    let report = reporter.next_report(None).unwrap();
    assert_eq!((report.app_id, report.token.as_str(), report.game_name), (0, "me", None));
    reporter.after_report(0, false);
    assert!(reporter.next_report(None).is_some());
    reporter.after_report(0, true);
    assert!(reporter.next_report(None).is_none());
    assert_eq!(reporter.next_report(Some(730)).unwrap().app_id, 730);
    reporter.after_report(730, true);
    assert!(reporter.next_report(Some(730)).is_none());
    assert_eq!(reporter.last_reported_id, Some(730));
    assert_eq!(reporter.next_report(None).unwrap().app_id, 0);
}

#[test]
fn settings() {
    assert_eq!(config::monitor_address(None), "localhost:3000");
    assert_eq!(config::monitor_address(Some("0.0.0.0:1".to_string())), "0.0.0.0:1");
    assert_eq!(config::store_url(None), "https://store.steampowered.com");
    assert_eq!(config::store_url(Some("http://p".to_string())), "http://p");
    assert_eq!(config::server_address(None), "0.0.0.0:3000");
    assert_eq!(config::server_address(Some("[::]:1".to_string())), "[::]:1");
}
