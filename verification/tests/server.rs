use steam_current_game::lookup;
use steam_current_game::lookup::{NameCache, NameStep};
use steam_current_game::names;
use steam_current_game::names::NamesError;
use steam_current_game::registry::{signature_text, AppState, Registry, UploadReply};
use steam_current_game::session;
use steam_current_game::session::Moment;
use steam_current_game::store::{StoreData, StoreResponse};
use steam_current_game::upload;
use steam_current_game::upload::UploadStep;
use steam_current_game::ReportData;

const TEMPLATE: &str = "%Status%|%GameName%|%PlayTime%|%GameNameColor%";

fn moment(nanos: u64) -> Moment {
    Moment { nanos, label: format!("Instant {{ {nanos} }}") }
}

fn by_id(token: &str, app_id: u32) -> ReportData {
    ReportData { app_id, token: token.to_string(), game_name: None }
}

fn by_name(token: &str, name: &str) -> ReportData {
    ReportData { app_id: 114514, token: token.to_string(), game_name: Some(name.to_string()) }
}

fn upload(registry: &mut Registry, report: &ReportData, at: u64, found: &str) -> UploadReply {
    let previous = registry.begin_upload(report, at);
    let session = match upload::after_begin(previous.as_ref(), report, moment(at + 1)) {
        UploadStep::Reply(reply) => return reply,
        UploadStep::Write(session) => session,
        UploadStep::FindName => session::session_with_name(found.to_string(), moment(at + 1)),
    };
    registry.finish_upload(&report.token, session.into_state(report.app_id, at), at + 2)
}

#[test]
fn unknown_token_is_told_so() {
    let registry = Registry::new();
    let response = registry.current_game("boot", "nobody", TEMPLATE, 0);
    assert_eq!(response.server.boot_id, "boot");
    assert!(!response.info.is_running);
    assert_eq!(response.info.signature, "invalid_token");
    assert_eq!(response.render, "");
}

#[test]
fn report_is_shown() {
    let mut registry = Registry::new();
    assert_eq!(upload(&mut registry, &by_id("me", 730), 1_000_000_000, "CS2"), UploadReply::Accepted);
    let response = registry.current_game("boot", "me", TEMPLATE, 3_600_000_000_000 + 1_000_000_001);
    assert!(response.info.is_running);
    assert_eq!(response.info.signature, "730_Instant { 1000000001 }");
    assert_eq!(response.render, "当前游戏|CS2|01:00:00|#66C0F4");
    // other users see nothing of it
    assert_eq!(registry.current_game("boot", "you", TEMPLATE, 0).info.signature, "invalid_token");
}

#[test]
fn id_zero_ends_the_session() {
    let mut registry = Registry::new();
    upload(&mut registry, &by_id("me", 730), 10, "CS2");
    assert_eq!(upload(&mut registry, &by_id("me", 0), 20, "unused"), UploadReply::Accepted);
    let response = registry.current_game("boot", "me", TEMPLATE, 30);
    assert!(!response.info.is_running);
    assert_eq!(response.info.signature, "idle");
    assert_eq!(response.render, "");
    let state = registry.state_of("me").unwrap();
    assert_eq!(state.current_app_id, 0);
    assert!(state.session_start_time.is_none());
    assert_eq!(state.last_updated_at, 20);
}

#[test]
fn first_report_of_nothing_makes_the_token_known() {
    let mut registry = Registry::new();
    assert!(registry.begin_upload(&by_id("me", 0), 7).is_none());
    assert_eq!(registry.current_game("b", "me", TEMPLATE, 8).info.signature, "idle");
    assert_eq!(registry.state_of("me").unwrap().last_updated_at, 7);
    assert!(registry.state_of("you").is_none());
}

#[test]
fn repeated_report_changes_nothing() {
    let mut registry = Registry::new();
    upload(&mut registry, &by_id("me", 730), 10, "CS2");
    assert!(registry.begin_upload(&by_id("me", 730), 20).is_none());
    upload(&mut registry, &by_name("me", "Chess"), 30, "unused");
    assert!(registry.begin_upload(&by_name("me", "Chess"), 40).is_none());
    let state = registry.state_of("me").unwrap();
    assert_eq!(state.session_start_time.unwrap().nanos, 31);
    assert_eq!(state.last_updated_at, 30);
    upload(&mut registry, &by_name("me", "未在游玩"), 50, "unused");
    assert!(registry.begin_upload(&by_name("me", "未在游玩"), 60).is_none());
    // the name "0" is shown as another one, so that it is not recognised
    upload(&mut registry, &by_name("me", "0"), 70, "unused");
    assert!(registry.begin_upload(&by_name("me", "0"), 80).is_some());
}

#[test]
fn name_is_compared_where_there_is_one() {
    let mut registry = Registry::new();
    upload(&mut registry, &by_id("me", 730), 10, "CS2");
    let same = ReportData { app_id: 5, token: "me".to_string(), game_name: Some("CS2".to_string()) };
    assert!(registry.begin_upload(&same, 20).is_none());
    let previous = registry.begin_upload(&by_name("me", "Chess"), 20).unwrap();
    assert_eq!(previous.current_app_id, 730);
    assert_eq!(previous.current_game_name, "CS2");
    assert_eq!(session::last_session_length(previous.session_start_time.as_ref(), 61_000_000_012), ("01:01".to_string(), 61));
    assert_eq!(session::last_session_length(None, 61_000_000_012), ("00:00".to_string(), 0));
}

#[test]
fn late_result_is_dropped() {
    let mut registry = Registry::new();
    let slow = by_id("me", 1);
    let fast = by_id("me", 2);
    assert!(registry.begin_upload(&slow, 10).is_some());
    assert!(registry.begin_upload(&fast, 20).is_some());
    let slow_state = session::session_with_name("slow".to_string(), moment(90)).into_state(1, 10);
    let fast_state = session::session_with_name("fast".to_string(), moment(30)).into_state(2, 20);
    assert_eq!(registry.finish_upload("me", fast_state, 31), UploadReply::Accepted);
    assert_eq!(registry.finish_upload("me", slow_state, 91), UploadReply::Ignored);
    assert_eq!(registry.state_of("me").unwrap().current_game_name, "fast");
    assert_eq!(UploadReply::Accepted.text(), "OK");
    assert_eq!(UploadReply::Ignored.text(), "Ignored");
}

#[test]
fn order_of_writes_does_not_matter() {
    let states = |first: usize| {
        let mut registry = Registry::new();
        registry.begin_upload(&by_id("me", 1), 10);
        for i in [first, 1 - first] {
            let (id, at) = [(1, 10), (2, 20)][i];
            let state = session::session_with_name(format!("game {id}"), moment(at)).into_state(id, at);
            registry.finish_upload("me", state, 30);
        }
        let state = registry.state_of("me").unwrap();
        (state.current_app_id, state.current_game_name, state.last_updated_at)
    };
    assert_eq!(states(0), (2, "game 2".to_string(), 20));
    assert_eq!(states(0), states(1));
}

#[test]
fn latest_request_counts() {
    for order in [[1u64, 2, 3], [3, 2, 1], [2, 3, 1], [3, 1, 2]] {
        let mut registry = Registry::new();
        registry.begin_upload(&by_id("me", 1), 1);
        for at in order {
            let state = session::session_with_name(format!("game {at}"), moment(at + 10)).into_state(at as u32, at);
            registry.finish_upload("me", state, 20);
        }
        let state = registry.state_of("me").unwrap();
        assert_eq!((state.current_game_name.as_str(), state.last_updated_at), ("game 3", 3));
    }
}

#[test]
fn write_of_equal_time_counts_and_one_for_a_fresh_user_is_late() {
    let mut registry = Registry::new();
    registry.begin_upload(&by_id("me", 1), 10);
    let state = session::session_with_name("a".to_string(), moment(11)).into_state(1, 10);
    assert_eq!(registry.finish_upload("me", state, 12), UploadReply::Accepted);
    let state = session::session_with_name("a".to_string(), moment(11)).into_state(1, 10);
    assert_eq!(registry.finish_upload("you", state, 12), UploadReply::Ignored);
    assert_eq!(registry.state_of("you").unwrap().current_game_name, "未在游玩");
}

#[test]
fn signatures_tell_sessions_apart() {
    let (a, b) = (moment(1), moment(2));
    let all = vec![
        signature_text(730, Some(&a)),
        signature_text(730, Some(&b)),
        signature_text(73, Some(&a)),
        signature_text(730, None),
        "idle".to_string(),
        "invalid_token".to_string(),
    ];
    assert_eq!(all[3], "730");
    for i in 0..all.len() {
        for j in 0..i {
            assert_ne!(all[i], all[j]);
        }
    }
}

#[test]
fn signature_follows_id_and_start_alone() {
    let mut registry = Registry::new();
    let signature = |registry: &Registry, template: &str, now: u64| {
        registry.current_game("boot", "me", template, now).info.signature
    };
    upload(&mut registry, &by_id("me", 730), 10, "CS2");
    let first = signature(&registry, TEMPLATE, 20);
    assert_eq!(first, signature(&registry, "another template", 99_000_000_000));
    assert!(first.starts_with("730"));
    // the same game, closed and started again
    upload(&mut registry, &by_id("me", 0), 30, "unused");
    upload(&mut registry, &by_id("me", 730), 40, "CS2");
    assert_ne!(first, signature(&registry, TEMPLATE, 50));
    // another game at the same start
    let state = session::session_with_name("CS2".to_string(), moment(11)).into_state(731, 60);
    registry.finish_upload("me", state, 61);
    assert_ne!(first, signature(&registry, TEMPLATE, 70));
    // another name alone
    let state = session::session_with_name("CS3".to_string(), moment(11)).into_state(730, 80);
    registry.finish_upload("me", state, 81);
    assert_eq!(first, signature(&registry, TEMPLATE, 90));
}

#[test]
fn states_are_sound() {
    let mut registry = Registry::new();
    let zero_with_name = ReportData { app_id: 0, token: "me".to_string(), game_name: Some("x".to_string()) };
    for (i, report) in [
        by_id("me", 730),
        zero_with_name,
        by_name("me", "Chess"),
        by_name("me", "0"),
        by_id("me", 5),
        by_id("me", 0),
    ].iter().enumerate() {
        upload(&mut registry, report, 10 * (i as u64 + 1), "found");
        let state = registry.state_of("me").unwrap();
        assert!(state.session_start_time.is_some() || state.current_game_name == "未在游玩");
        assert!(state.current_app_id != 0 || state.session_start_time.is_none());
    }
}

#[test]
fn game_without_start_shows_no_play_time() {
    let mut registry = Registry::new();
    let state = AppState {
        current_app_id: 9,
        current_game_name: "x".to_string(),
        session_start_time: None,
        last_updated_at: 50,
    };
    registry.finish_upload("me", state, 1);
    let response = registry.current_game("b", "me", TEMPLATE, 99_000_000_000);
    assert_eq!(response.info.signature, "9");
    assert_eq!(response.render, "当前游戏|x|00:00|#66C0F4");
}

#[test]
fn links() {
    let report = session::report_from_link("me".to_string(), "730".to_string());
    assert_eq!((report.app_id, report.token.as_str(), report.game_name), (730, "me", None));
    let report = session::report_from_link("me".to_string(), "黑神话".to_string());
    assert_eq!(report.app_id, 114514);
    assert_eq!(report.game_name.as_deref(), Some("黑神话"));
    let report = session::report_from_link("me".to_string(), "4294967296".to_string());
    assert_eq!(report.game_name.as_deref(), Some("4294967296"));
}

#[test]
fn sessions_from_reports() {
    let session = session::session_from_report(&by_id("me", 0), moment(3)).unwrap();
    assert_eq!((session.game_name.as_str(), session.start_time.is_none()), ("未在游玩", true));
    for name in ["0", "未在游玩"] {
        let session = session::session_from_report(&by_name("me", name), moment(3)).unwrap();
        assert_eq!((session.game_name.as_str(), session.start_time.is_none()), ("未在游玩", true));
    }
    let named_zero = ReportData { app_id: 0, token: String::new(), game_name: Some("x".to_string()) };
    assert_eq!(session::session_from_report(&named_zero, moment(3)).unwrap().game_name, "未在游玩");
    let session = session::session_from_report(&by_name("me", "x"), moment(3)).unwrap();
    assert_eq!((session.game_name.as_str(), session.start_time.unwrap().nanos), ("x", 3));
    assert!(session::session_from_report(&by_id("me", 730), moment(3)).is_none());
}

#[test]
fn default_report() {
    let report = ReportData::default();
    assert_eq!((report.app_id, report.token.as_str(), report.game_name), (0, "", None));
    let state = AppState::default_at(4);
    assert_eq!((state.current_app_id, state.current_game_name.as_str(), state.last_updated_at), (0, "未在游玩", 4));
}

#[test]
fn search_for_a_name() {
    let mut cache = NameCache::new();
    assert!(matches!(lookup::after_override(Ok(Some("set".to_string()))), NameStep::Known(name) if name == "set"));
    assert!(matches!(lookup::after_override(Ok(None)), NameStep::AskCache));
    assert!(matches!(cache.after_cache(730), NameStep::AskStore));
    assert_eq!(cache.after_fetch(730, Err("timeout".to_string())), "未知游戏 (730)");
    assert!(matches!(cache.after_cache(730), NameStep::AskStore));
    assert_eq!(cache.after_fetch(730, Ok("CS2".to_string())), "CS2");
    assert!(matches!(cache.after_cache(730), NameStep::Known(name) if name == "CS2"));
    assert!(matches!(cache.after_cache(731), NameStep::AskStore));
}

#[test]
fn names_of_the_operator() {
    let document = r#"{ "730": "反恐精英", "10": "one", "10": "two" }"#;
    assert_eq!(names::lookup_name_override(document, 730).unwrap().as_deref(), Some("反恐精英"));
    assert_eq!(names::lookup_name_override(document, 10).unwrap().as_deref(), Some("two"));
    assert_eq!(names::lookup_name_override(document, 73).unwrap(), None);
    assert_eq!(names::lookup_name_override("{}", 73).unwrap(), None);
    for malformed in ["", "[]", "{\"730\": 1}", "{\"730\": \"x\"", "{\"730\": null}"] {
        let found = names::lookup_name_override(malformed, 730);
        assert!(matches!(found, Err(NamesError::Malformed(_))));
        assert!(matches!(lookup::after_override(found), NameStep::AskCache));
    }
}

#[test]
fn entries_by_key() {
    let entries = vec![("1".to_string(), "a".to_string()), ("2".to_string(), "b".to_string())];
    assert_eq!(names::find_entry(&entries, "2").as_deref(), Some("b"));
    assert_eq!(names::find_entry(&entries, "3"), None);
}

#[test]
fn names_from_the_store() {
    let entry = |success, name: Option<&str>| {
        Some(StoreResponse { success, data: name.map(|n| StoreData { name: n.to_string() }) })
    };
    assert_eq!(lookup::fetched_name(entry(true, Some("CS2"))), Ok("CS2".to_string()));
    let failed = Err("API 解析失败".to_string());
    assert_eq!(lookup::fetched_name(entry(false, Some("CS2"))), failed);
    assert_eq!(lookup::fetched_name(entry(true, None)), failed);
    assert_eq!(lookup::fetched_name(None), failed);
}
