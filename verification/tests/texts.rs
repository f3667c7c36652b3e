use std::time::Duration;

use steam_current_game::card;
use steam_current_game::playtime;
use steam_current_game::text;

#[test]
fn decimal_numbers() {
    assert_eq!(text::decimal_text(0), "0");
    assert_eq!(text::decimal_text(9), "9");
    assert_eq!(text::decimal_text(10), "10");
    assert_eq!(text::decimal_text(2358720), "2358720");
    assert_eq!(text::decimal_text(u64::MAX), "18446744073709551615");
    let mut out = String::from("id ");
    text::append_decimal(&mut out, 1234567890);
    assert_eq!(out, "id 1234567890");
}

#[test]
fn two_digits_at_least() {
    let mut out = String::new();
    text::append_two_digits(&mut out, 0);
    text::append_two_digits(&mut out, 7);
    text::append_two_digits(&mut out, 42);
    text::append_two_digits(&mut out, 123);
    assert_eq!(out, "000742123");
}

#[test]
fn numbers_are_read_as_std_reads_them() {
    for case in [
        "0", "730", "+730", "007", "4294967295", "4294967296", "99999999999999999999", "", "+",
        "-1", "-0", " 1", "1 ", "1_000", "++1", "12a", "一", "00000000000000000000001", "1+",
    ] {
        assert_eq!(text::parse_u32(case), case.parse::<u32>().ok(), "{case:?}");
    }
    assert_eq!(text::parse_u32("+730"), Some(730));
    assert_eq!(text::parse_u32("4294967296"), None);
}

#[test]
fn decimal_text_is_read_back() {
    for n in [0u32, 1, 9, 10, 99, 100, 114514, u32::MAX] {
        assert_eq!(text::parse_u32(&text::decimal_text(n as u64)), Some(n));
    }
}

#[test]
fn replacement_goes_from_left_to_right_without_overlap() {
    assert_eq!(text::replace_all("aaaa", "aa", "b"), "bb");
    assert_eq!(text::replace_all("aaa", "aa", "b"), "ba");
    assert_eq!(text::replace_all("", "aa", "b"), "");
    assert_eq!(text::replace_all("a", "aa", "b"), "a");
    assert_eq!(text::replace_all("xaax", "aa", ""), "xx");
    assert_eq!(text::replace_all("黑神话 %x% 悟空 %x%", "%x%", "；%x%"), "黑神话 ；%x% 悟空 ；%x%");
    for (t, p, w) in [("abcabc", "bc", "bcbc"), ("%a%b%", "%b%", "v"), ("ééé", "é", "e")] {
        assert_eq!(text::replace_all(t, p, w), t.replace(p, w));
    }
}

#[test]
fn same_texts() {
    assert!(text::same_text("未在游玩", text::NOT_PLAYING));
    assert!(!text::same_text("未在游", text::NOT_PLAYING));
    assert_eq!(text::chars_of("a未"), vec!['a', '未']);
}

#[test]
fn durations() {
    assert_eq!(playtime::format_duration(Duration::from_secs(0)), "00:00");
    assert_eq!(playtime::format_duration(Duration::from_secs(59)), "00:59");
    assert_eq!(playtime::format_duration(Duration::from_secs(60)), "01:00");
    assert_eq!(playtime::format_duration(Duration::from_secs(3599)), "59:59");
    assert_eq!(playtime::format_duration(Duration::from_secs(3600)), "01:00:00");
    assert_eq!(playtime::format_duration(Duration::from_secs(3661)), "01:01:01");
    assert_eq!(playtime::format_duration(Duration::from_secs(360000)), "100:00:00");
    assert_eq!(playtime::format_duration(Duration::from_millis(1999)), "00:01");
    assert_eq!(playtime::format_duration(Duration::MAX), "5124095576030431:00:15");
    assert_eq!(playtime::format_seconds(86399), "23:59:59");
}

#[test]
fn play_times_differ_where_seconds_differ() {
    let texts: Vec<String> = (0..8000).map(playtime::format_seconds).collect();
    for i in 1..texts.len() {
        assert!(!texts[..i].contains(&texts[i]));
    }
}

#[test]
fn elapsed_time() {
    assert_eq!(playtime::elapsed(5, 12), Duration::from_nanos(7));
    assert_eq!(playtime::elapsed(12, 5), Duration::from_nanos(0));
    assert_eq!(card::play_time_text(Some(1_000_000_000), 62_500_000_000), "01:01");
    assert_eq!(card::play_time_text(Some(9), 3), "00:00");
    assert_eq!(card::play_time_text(None, 62_500_000_000), "00:00");
}

#[test]
fn card_carries_values() {
    let template = "<a %GameNameColor%;><b>%Status% %PlayTime%</b>%GameName%</a>";
    assert_eq!(
        card::fill(template, "正在游玩", "黑神话：悟空", "01:02"),
        "<a #66C0F4;><b>正在游玩 01:02</b>黑神话：悟空</a>"
    );
    assert_eq!(card::fill("no placeholder", "s", "g", "t"), "no placeholder");
}

#[test]
fn placeholders_in_a_name_are_filled_in_too() {
    assert_eq!(card::fill("[%GameName%]", "s", "%PlayTime%", "01:02"), "[01:02]");
    assert_eq!(card::fill("[%GameName%]", "s", "%Status%", "01:02"), "[%Status%]");
}
