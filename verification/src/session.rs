//! Sessions: what a report says about the game that runs, and since when.
use vstd::prelude::*;
use vstd::string::*;

use crate::card;
use crate::playtime;
use crate::protocol;
use crate::protocol::ReportData;
use crate::text;
use crate::text::NOT_PLAYING;

verus! {

/// The application id under which a game is kept that was reported by its name alone.
pub const NAMED_GAME_APP_ID: u32 = 114514;

/// A point in time, as the clock of the server gave it.
#[derive(Debug)]
pub struct Moment {
    /// Nanoseconds since the server was started.
    pub nanos: u64,
    /// The point in time as the clock writes it. What that text looks like is left to the clock, and
    /// so is that it differs between two points in time.
    pub label: String,
}

/// A moment as a mathematical value.
pub struct TimePoint {
    pub nanos: u64,
    pub label: Seq<char>,
}

impl View for Moment {
    type V = TimePoint;

    open spec fn view(&self) -> TimePoint {
        TimePoint { nanos: self.nanos, label: self.label@ }
    }
}

/// The value of an optional moment.
pub open spec fn time_point_in(moment: Option<Moment>) -> Option<TimePoint> {
    match moment {
        Some(moment) => Some(moment@),
        None => None,
    }
}

impl Clone for Moment {
    fn clone(&self) -> (copy: Moment)
        ensures
            copy == *self,
    {
        Moment { nanos: self.nanos, label: self.label.clone() }
    }
}

/// The report that a link with a token and a game stands for. A game given as a number is an
/// application id, any other is a name.
pub open spec fn linked_report(token: Seq<char>, game: Seq<char>) -> protocol::Report {
    match text::parsed_u32(game) {
        Some(app_id) => protocol::Report { app_id, token, game_name: None },
        None => protocol::Report { app_id: NAMED_GAME_APP_ID, token, game_name: Some(game) },
    }
}

/// Makes the report that a link with a token and a game stands for.
pub fn report_from_link(token: String, game: String) -> (report: ReportData)
    ensures
        report@ == linked_report(token@, game@),
        report.token@ == token@,
        match text::parsed_u32(game@) {
            Some(app_id) => report.app_id == app_id && report.game_name is None,
            None => report.app_id == 114514 && report.game_name is Some && report.game_name->0@
                == game@,
        },
{
    match text::parse_u32(game.as_str()) {
        Some(app_id) => ReportData { app_id, token, game_name: None },
        None => ReportData { app_id: NAMED_GAME_APP_ID, token, game_name: Some(game) },
    }
}

/// What a report comes down to: the name to show, and when the session started where a game runs.
#[derive(Debug)]
pub struct Session {
    pub game_name: String,
    pub start_time: Option<Moment>,
}

/// A session as a mathematical value.
pub struct SessionValue {
    pub game_name: Seq<char>,
    pub start: Option<TimePoint>,
}

impl View for Session {
    type V = SessionValue;

    open spec fn view(&self) -> SessionValue {
        SessionValue { game_name: self.game_name@, start: time_point_in(self.start_time) }
    }
}

/// No game runs.
pub open spec fn no_session() -> SessionValue {
    SessionValue { game_name: NOT_PLAYING@, start: None }
}

/// The session that a report speaks of without help from anywhere else, at `now`: none for
/// application id 0 and for the names that say so, and a new one for any other name. A report
/// with an id alone leaves the name open.
pub open spec fn told_session(report: protocol::Report, now: TimePoint) -> Option<SessionValue> {
    if report.app_id == 0 {
        Some(no_session())
    } else {
        match report.game_name {
            Some(game_name) => if game_name == "0"@ || game_name == NOT_PLAYING@ {
                Some(no_session())
            } else {
                Some(SessionValue { game_name, start: Some(now) })
            },
            None => None,
        }
    }
}

/// The session that a report speaks of, or `None` where the game's name has to be looked up.
pub fn session_from_report(report: &ReportData, now: Moment) -> (session: Option<Session>)
    ensures
        match session {
            Some(session) => told_session(report@, now@) == Some(session@),
            None => told_session(report@, now@) is None,
        },
        session is None <==> report.app_id != 0 && report.game_name is None,
        session matches Some(session) ==> {
            if report.app_id == 0 || report.game_name->0@ == "0"@ || report.game_name->0@
                == "未在游玩"@ {
                session.game_name@ == "未在游玩"@ && session.start_time is None
            } else {
                session.game_name@ == report.game_name->0@ && session.start_time == Some(now)
            }
        },
{
    if report.app_id == 0 {
        return Some(Session { game_name: NOT_PLAYING.to_owned(), start_time: None });
    }
    match &report.game_name {
        Some(game_name) => if text::same_text(game_name.as_str(), "0") || text::same_text(
            game_name.as_str(),
            NOT_PLAYING,
        ) {
            Some(Session { game_name: NOT_PLAYING.to_owned(), start_time: None })
        } else {
            Some(Session { game_name: game_name.clone(), start_time: Some(now) })
        },
        None => None,
    }
}

/// The session of a game whose name was looked up.
pub fn session_with_name(game_name: String, now: Moment) -> (session: Session)
    ensures
        session@ == (SessionValue { game_name: game_name@, start: Some(now@) }),
        session.game_name@ == game_name@ && session.start_time == Some(now),
{
    Session { game_name, start_time: Some(now) }
}

/// How long the session lasted that a report ends: as text, and in whole seconds.
pub fn last_session_length(start: Option<&Moment>, now: u64) -> (length: (String, u64))
    ensures
        length.0@ == card::shown_play_time(start_nanos(start), now),
        length.1 == (match start {
            Some(start) => playtime::seconds_between(start.nanos, now),
            None => 0,
        }),
        match start {
            Some(start) => if start.nanos <= now {
                length.1 == (now - start.nanos) / 1_000_000_000 && length.0@ == playtime::play_time(
                    length.1 as nat,
                )
            } else {
                length.1 == 0 && length.0@ == playtime::play_time(0)
            },
            None => length.1 == 0 && length.0@ == "00:00"@,
        },
{
    match start {
        Some(start) => (
            card::play_time_text(Some(start.nanos), now),
            playtime::elapsed(start.nanos, now).as_secs(),
        ),
        None => (card::play_time_text(None, now), 0),
    }
}

/// The nanoseconds of an optional moment.
pub open spec fn start_nanos(start: Option<&Moment>) -> Option<u64> {
    match start {
        Some(start) => Some(start.nanos),
        None => None,
    }
}

/// The value of a moment is its time and its text, each in full.
pub proof fn lemma_moment_value(moment: Moment)
    ensures
        moment@.nanos == moment.nanos,
        moment@.label == moment.label@,
        time_point_in(Some(moment)) == Some(moment@),
        time_point_in(None) is None,
        start_nanos(Some(&moment)) == Some(moment.nanos),
        start_nanos(None) is None,
{
}

/// The value of a session is its name and its start, each in full.
pub proof fn lemma_session_value(session: Session)
    ensures
        session@.game_name == session.game_name@,
        session.start_time is None ==> session@.start is None,
        session.start_time matches Some(start) ==> session@.start == Some(start@),
{
}

/// A game that is told by its name starts its session at the time given, to the nanosecond and with
/// the clock's own text, and is shown under the whole name. A display that asks some time later
/// is shown the play time of just that time.
pub proof fn lemma_told_session_starts_now(
    report: protocol::Report,
    now: TimePoint,
    name: Seq<char>,
    passed: u64,
)
    requires
        report.app_id != 0,
        report.game_name == Some(name),
        name != "0"@,
        name != "未在游玩"@,
        now.nanos + passed <= u64::MAX,
    ensures
        told_session(report, now) is Some,
        told_session(report, now)->0.game_name == name,
        told_session(report, now)->0.start is Some,
        told_session(report, now)->0.start->0.nanos == now.nanos,
        told_session(report, now)->0.start->0.label == now.label,
        card::shown_play_time(
            Some(told_session(report, now)->0.start->0.nanos),
            (now.nanos + passed) as u64,
        ) == playtime::play_time((passed / 1_000_000_000) as nat),
{
    card::lemma_shown_play_time_counts_from_start(now.nanos, passed);
}

/// A report without a game ends the session: id 0 with or without a name, and either of the names
/// that say so.
pub proof fn lemma_told_end(report: protocol::Report, now: TimePoint)
    requires
        report.app_id == 0 || report.game_name == Some("0"@) || report.game_name == Some(
            "未在游玩"@,
        ),
    ensures
        told_session(report, now) is Some,
        told_session(report, now)->0.game_name == "未在游玩"@,
        told_session(report, now)->0.start is None,
{
}

/// A report with an id alone, other than 0, leaves the name open, and no other does.
pub proof fn lemma_told_nothing(report: protocol::Report, now: TimePoint)
    ensures
        told_session(report, now) is None <==> report.app_id != 0 && report.game_name is None,
{
}

/// A link keeps its token, and its game is either the id of the report or its name, in full.
pub proof fn lemma_link_keeps_game(token: Seq<char>, game: Seq<char>)
    ensures
        linked_report(token, game).token == token,
        linked_report(token, game).game_name is None ==> text::parsed_u32(game) == Some(
            linked_report(token, game).app_id,
        ),
        linked_report(token, game).game_name is Some ==> text::parsed_u32(game) is None
            && linked_report(token, game).game_name == Some(game) && linked_report(
            token,
            game,
        ).app_id == 114514,
{
}

} // verus!
