//! The pages that are served: their headers and their bodies.
use vstd::prelude::*;
use vstd::string::*;

use crate::card;
use crate::monitor;
use crate::monitor::Display;
use crate::playtime;
use crate::svg;
use crate::svg::SVG_TEMPLATE;
use crate::template;
use crate::text;

verus! {

/// The page that asks the monitor once a second for what is shown, and clears it where no answer
/// comes.
pub const MONITOR_PAGE: &'static str = r#"<!DOCTYPE html>
        <html>
        <head>
            <meta charset="utf-8">
            <title>Steam Status Monitor</title>
            <style>
                /* 确保页面背景完全透明 */
                body, html {
                    margin: 0;
                    padding: 0;
                    width: 100%;
                    height: 100%;
                    background-color: transparent;
                    overflow: hidden;
                }
                /* 容器用于放置 SVG */
                #container {
                    width: 100%;
                    height: 100%;
                    display: flex;
                    align-items: center;
                    justify-content: flex-start;
                }
            </style>
        </head>
        <body>
            <div id="container"></div>

            <script>
                const API_URL = "/current"; // 相对路径，请求同域下的接口
                const REFRESH_INTERVAL = 1000; // 1秒轮询一次
                const container = document.getElementById('container');

                updateState = async() => {
                    try {
                        const response = await fetch(API_URL);

                        if (response.ok) {
                            const htmlContent = await response.text();

                            // 3. 简单的 Diff：只有内容变了才更新 DOM，避免闪烁
                            if (container.innerHTML !== htmlContent) {
                                container.innerHTML = htmlContent;
                            }
                        } else {
                            throw new Error("Server error");
                        }
                    } catch (error) {
                        // 如果 fetch 失败（网络断了、Rust 进程挂了），
                        // 将内容清空，OBS 上显示为全透明，而不是报错页面。
                        // 等 Rust 重启后，下一次轮询会自动恢复显示。
                        console.warn("Connection lost or server error, clearing display...", error);
                        if (container.innerHTML !== "") {
                            container.innerHTML = "";
                        }
                    }
                }

                setInterval(updateState, REFRESH_INTERVAL);
                updateState();
            </script>
        </body>
        </html>"#;

/// The headers that are set.
#[derive(Debug, Clone, Copy, PartialEq, Eq, Structural)]
pub enum HeaderName {
    ContentType,
    CacheControl,
    Pragma,
    Expires,
    AccessControlAllowOrigin,
}

/// One header of an answer.
#[derive(Debug, Clone, Copy)]
pub struct Header {
    pub name: HeaderName,
    pub value: &'static str,
}

/// An answer: its headers, in order, and its body.
#[derive(Debug)]
pub struct Page {
    pub headers: Vec<Header>,
    pub body: String,
}

/// A list of headers as a mathematical value.
pub open spec fn header_list(headers: Seq<Header>) -> Seq<(HeaderName, Seq<char>)> {
    headers.map_values(|header: Header| (header.name, header.value@))
}

/// The headers of a page with markup that must be asked for anew each time and may be shown
/// anywhere.
pub open spec fn live_markup_headers() -> Seq<(HeaderName, Seq<char>)> {
    seq![
        (HeaderName::ContentType, "text/html; charset=utf-8"@),
        (HeaderName::CacheControl, "no-cache, no-store, must-revalidate"@),
        (HeaderName::Pragma, "no-cache"@),
        (HeaderName::Expires, "0"@),
        (HeaderName::AccessControlAllowOrigin, "*"@),
    ]
}

/// The headers of the server's answers to displays.
pub open spec fn live_json_headers() -> Seq<(HeaderName, Seq<char>)> {
    seq![
        (HeaderName::ContentType, "application/json; charset=utf-8"@),
        (HeaderName::CacheControl, "no-cache, no-store, must-revalidate"@),
        (HeaderName::AccessControlAllowOrigin, "*"@),
    ]
}

/// The template of the card on which the monitor shows a game.
pub fn get_svg_template() -> (template: String)
    ensures
        template@ == SVG_TEMPLATE@,
{
    SVG_TEMPLATE.to_owned()
}

/// What the monitor answers to a page that asks what is shown, at `now`: the markup, with headers
/// that keep it from being stored.
pub fn current_game_page(display: &Display, now: u64) -> (page: Page)
    ensures
        header_list(page.headers@) == live_markup_headers(),
        page.body@ == monitor::markup(display@, SVG_TEMPLATE@, now),
        page.headers@.len() == 5,
        page.headers@[0].name == HeaderName::ContentType && page.headers@[0].value@
            == "text/html; charset=utf-8"@,
        page.headers@[1].name == HeaderName::CacheControl && page.headers@[1].value@
            == "no-cache, no-store, must-revalidate"@,
        page.headers@[2].name == HeaderName::Pragma && page.headers@[2].value@ == "no-cache"@,
        page.headers@[3].name == HeaderName::Expires && page.headers@[3].value@ == "0"@,
        page.headers@[4].name == HeaderName::AccessControlAllowOrigin && page.headers@[4].value@
            == "*"@,
        display.current_game_name@ == "未在游玩"@ ==> page.body@.len() == 0,
        display.current_game_name@ != "未在游玩"@ ==> page.body@ == card::filled(
            SVG_TEMPLATE@,
            "正在游玩"@,
            display.current_game_name@,
            match display.session_start_time {
                Some(start) => playtime::play_time(
                    if start <= now {
                        ((now - start) / 1_000_000_000) as nat
                    } else {
                        0
                    },
                ),
                None => "00:00"@,
            },
        ),
{
    let mut headers: Vec<Header> = Vec::new();
    headers.push(Header { name: HeaderName::ContentType, value: "text/html; charset=utf-8" });
    headers.push(
        Header { name: HeaderName::CacheControl, value: "no-cache, no-store, must-revalidate" },
    );
    headers.push(Header { name: HeaderName::Pragma, value: "no-cache" });
    headers.push(Header { name: HeaderName::Expires, value: "0" });
    headers.push(Header { name: HeaderName::AccessControlAllowOrigin, value: "*" });
    assert(header_list(headers@) =~= live_markup_headers());
    Page { headers, body: display.content(get_svg_template().as_str(), now) }
}

/// The page of the monitor.
pub fn monitor_root_page() -> (page: Page)
    ensures
        header_list(page.headers@) == seq![
            (HeaderName::ContentType, "text/html; charset=utf-8"@),
            (HeaderName::CacheControl, "no-cache"@),
        ],
        page.body@ == MONITOR_PAGE@,
        page.headers@.len() == 2,
        page.headers@[0].name == HeaderName::ContentType && page.headers@[0].value@
            == "text/html; charset=utf-8"@,
        page.headers@[1].name == HeaderName::CacheControl && page.headers@[1].value@ == "no-cache"@,
{
    let mut headers: Vec<Header> = Vec::new();
    headers.push(Header { name: HeaderName::ContentType, value: "text/html; charset=utf-8" });
    headers.push(Header { name: HeaderName::CacheControl, value: "no-cache" });
    assert(header_list(headers@) =~= seq![
        (HeaderName::ContentType, "text/html; charset=utf-8"@),
        (HeaderName::CacheControl, "no-cache"@),
    ]);
    Page { headers, body: MONITOR_PAGE.to_owned() }
}

/// The headers of the server's answers to displays.
pub fn current_game_headers() -> (headers: Vec<Header>)
    ensures
        header_list(headers@) == live_json_headers(),
        headers@.len() == 3,
        headers@[0].name == HeaderName::ContentType && headers@[0].value@
            == "application/json; charset=utf-8"@,
        headers@[1].name == HeaderName::CacheControl && headers@[1].value@
            == "no-cache, no-store, must-revalidate"@,
        headers@[2].name == HeaderName::AccessControlAllowOrigin && headers@[2].value@ == "*"@,
{
    let mut headers: Vec<Header> = Vec::new();
    headers.push(
        Header { name: HeaderName::ContentType, value: "application/json; charset=utf-8" },
    );
    headers.push(
        Header { name: HeaderName::CacheControl, value: "no-cache, no-store, must-revalidate" },
    );
    headers.push(Header { name: HeaderName::AccessControlAllowOrigin, value: "*" });
    assert(header_list(headers@) =~= live_json_headers());
    headers
}

/// The page of the server for one user: the template with the user's token filled in.
pub fn server_root_page(template: &str, token: &str) -> (page: Page)
    ensures
        header_list(page.headers@) == seq![(HeaderName::ContentType, "text/html; charset=utf-8"@)],
        page.body@ == text::replaced(template@, "%token%"@, token@),
        page.headers@.len() == 1,
        page.headers@[0].name == HeaderName::ContentType && page.headers@[0].value@
            == "text/html; charset=utf-8"@,
{
    proof {
        reveal_strlit("%token%");
    }
    let mut headers: Vec<Header> = Vec::new();
    headers.push(Header { name: HeaderName::ContentType, value: "text/html; charset=utf-8" });
    assert(header_list(headers@) =~= seq![
        (HeaderName::ContentType, "text/html; charset=utf-8"@),
    ]);
    Page { headers, body: text::replace_all(template, "%token%", token) }
}

/// Whether a part stands somewhere in a text.
pub open spec fn shows(whole: Seq<char>, part: Seq<char>) -> bool {
    exists|at: int| text::occurs_at(whole, part, at)
}

/// The play time that is shown has no percent signs.
proof fn lemma_play_time_plain(start: Option<u64>, now: u64)
    ensures
        template::plain(card::shown_play_time(start, now)),
{
    match start {
        Some(start) => {
            playtime::lemma_play_time_characters(playtime::seconds_between(start, now));
        },
        None => {
            reveal_strlit("00:00");
        },
    }
}

/// The card of the monitor shows the game: its name, the play time, that it is being played, and
/// the colour. A placeholder in the name that is filled in after the name would be filled in there
/// too.
pub proof fn lemma_card_shows_game(shown: monitor::Shown, now: u64)
    requires
        shown.name != text::NOT_PLAYING@,
        forall|at: int| !text::occurs_at(shown.name, "%PlayTime%"@, at),
        forall|at: int| !text::occurs_at(shown.name, "%GameNameColor%"@, at),
    ensures
        ({
            let body = monitor::markup(shown, SVG_TEMPLATE@, now);
            let play_time = card::shown_play_time(shown.start, now);
            &&& shows(body, "<div class=\"game-name\">"@ + shown.name + "</div>"@)
            &&& shows(body, "> "@ + play_time + " </span>"@)
            &&& shows(body, "<span> "@ + monitor::STATUS_TEXT@ + " </span>"@)
            &&& shows(body, "color: "@ + card::GAME_NAME_COLOR@ + ";"@)
        }),
{
    let (status, name) = (monitor::STATUS_TEXT@, shown.name);
    let time = card::shown_play_time(shown.start, now);
    let svg = SVG_TEMPLATE@;
    lemma_play_time_plain(shown.start, now);
    svg::lemma_places();
    svg::lemma_surroundings();
    template::lemma_card_words();
    assert(template::plain(status)) by {
        reveal_strlit("正在游玩");
    }
    template::lemma_plain_lacks(status, "GameName"@);
    template::lemma_plain_lacks(status, "PlayTime"@);
    template::lemma_plain_lacks(status, "GameNameColor"@);
    template::lemma_plain_lacks(time, "GameNameColor"@);
    template::lemma_value_shows(
        svg,
        2144,
        "<div class=\"game-name\">"@,
        "GameName"@,
        "</div>"@,
        status,
        name,
        time,
    );
    template::lemma_value_shows(svg, 2068, "> "@, "PlayTime"@, " </span>"@, status, name, time);
    template::lemma_value_shows(svg, 1979, "<span> "@, "Status"@, " </span>"@, status, name, time);
    template::lemma_value_shows(svg, 1559, "color: "@, "GameNameColor"@, ";"@, status, name, time);
}

/// A list of headers is as long as the headers, in order, each with its name and its value in full.
pub proof fn lemma_header_list(headers: Seq<Header>, i: int)
    requires
        0 <= i < headers.len(),
    ensures
        header_list(headers).len() == headers.len(),
        header_list(headers)[i].0 == headers[i].name,
        header_list(headers)[i].1 == headers[i].value@,
{
}

/// A part shows in a text just where the text, from some position on, begins with it.
pub proof fn lemma_shows(whole: Seq<char>, part: Seq<char>)
    ensures
        shows(whole, part) <==> exists|at: int|
            0 <= at <= whole.len() && part.is_prefix_of(#[trigger] whole.skip(at)),
{
    if shows(whole, part) {
        let at = choose|at: int| text::occurs_at(whole, part, at);
        text::lemma_occurs_at(whole, part, at);
        assert(part.is_prefix_of(whole.skip(at)));
    }
    if exists|at: int| 0 <= at <= whole.len() && part.is_prefix_of(#[trigger] whole.skip(at)) {
        let at = choose|at: int|
            0 <= at <= whole.len() && part.is_prefix_of(#[trigger] whole.skip(at));
        text::lemma_occurs_at(whole, part, at);
        assert(text::occurs_at(whole, part, at));
    }
}

/// The page of the monitor asks for what is shown under `/current`, once a second, shows what comes,
/// and shows nothing where no answer comes.
pub proof fn lemma_monitor_page_asks_each_second()
    ensures
        shows(MONITOR_PAGE@, "const API_URL = \"/current\";"@),
        shows(MONITOR_PAGE@, "const REFRESH_INTERVAL = 1000;"@),
        shows(MONITOR_PAGE@, "const response = await fetch(API_URL);"@),
        shows(MONITOR_PAGE@, "container.innerHTML = htmlContent;"@),
        shows(MONITOR_PAGE@, "container.innerHTML = \"\";"@),
        shows(MONITOR_PAGE@, "setInterval(updateState, REFRESH_INTERVAL);"@),
{
    reveal_strlit(
        r#"<!DOCTYPE html>
        <html>
        <head>
            <meta charset="utf-8">
            <title>Steam Status Monitor</title>
            <style>
                /* 确保页面背景完全透明 */
                body, html {
                    margin: 0;
                    padding: 0;
                    width: 100%;
                    height: 100%;
                    background-color: transparent;
                    overflow: hidden;
                }
                /* 容器用于放置 SVG */
                #container {
                    width: 100%;
                    height: 100%;
                    display: flex;
                    align-items: center;
                    justify-content: flex-start;
                }
            </style>
        </head>
        <body>
            <div id="container"></div>

            <script>
                const API_URL = "/current"; // 相对路径，请求同域下的接口
                const REFRESH_INTERVAL = 1000; // 1秒轮询一次
                const container = document.getElementById('container');

                updateState = async() => {
                    try {
                        const response = await fetch(API_URL);

                        if (response.ok) {
                            const htmlContent = await response.text();

                            // 3. 简单的 Diff：只有内容变了才更新 DOM，避免闪烁
                            if (container.innerHTML !== htmlContent) {
                                container.innerHTML = htmlContent;
                            }
                        } else {
                            throw new Error("Server error");
                        }
                    } catch (error) {
                        // 如果 fetch 失败（网络断了、Rust 进程挂了），
                        // 将内容清空，OBS 上显示为全透明，而不是报错页面。
                        // 等 Rust 重启后，下一次轮询会自动恢复显示。
                        console.warn("Connection lost or server error, clearing display...", error);
                        if (container.innerHTML !== "") {
                            container.innerHTML = "";
                        }
                    }
                }

                setInterval(updateState, REFRESH_INTERVAL);
                updateState();
            </script>
        </body>
        </html>"#,
    );
    reveal_strlit("const API_URL = \"/current\";");
    reveal_strlit("const REFRESH_INTERVAL = 1000;");
    reveal_strlit("const response = await fetch(API_URL);");
    reveal_strlit("container.innerHTML = htmlContent;");
    reveal_strlit("container.innerHTML = \"\";");
    reveal_strlit("setInterval(updateState, REFRESH_INTERVAL);");
    assert(MONITOR_PAGE@.subrange(849, 876) =~= "const API_URL = \"/current\";"@);
    assert(text::occurs_at(MONITOR_PAGE@, "const API_URL = \"/current\";"@, 849));
    assert(MONITOR_PAGE@.subrange(910, 940) =~= "const REFRESH_INTERVAL = 1000;"@);
    assert(text::occurs_at(MONITOR_PAGE@, "const REFRESH_INTERVAL = 1000;"@, 910));
    assert(MONITOR_PAGE@.subrange(1117, 1155) =~= "const response = await fetch(API_URL);"@);
    assert(text::occurs_at(MONITOR_PAGE@, "const response = await fetch(API_URL);"@, 1117));
    assert(MONITOR_PAGE@.subrange(1437, 1471) =~= "container.innerHTML = htmlContent;"@);
    assert(text::occurs_at(MONITOR_PAGE@, "container.innerHTML = htmlContent;"@, 1437));
    assert(MONITOR_PAGE@.subrange(2009, 2034) =~= "container.innerHTML = \"\";"@);
    assert(text::occurs_at(MONITOR_PAGE@, "container.innerHTML = \"\";"@, 2009));
    assert(MONITOR_PAGE@.subrange(2118, 2161) =~= "setInterval(updateState, REFRESH_INTERVAL);"@);
    assert(text::occurs_at(MONITOR_PAGE@, "setInterval(updateState, REFRESH_INTERVAL);"@, 2118));
}

} // verus!
