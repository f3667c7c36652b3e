//! What becomes of a report, from its arrival to the answer.
//!
//! A report passes the registry twice. On its arrival the registry says whether it changes
//! anything. If it does, the name of the game is found out, which may take long and happens
//! without a hold on the registry. Then the result is written, unless a report that arrived later
//! was written in the meantime.
use vstd::prelude::*;

use crate::protocol;
use crate::protocol::ReportData;
use crate::registry;
use crate::registry::{AppState, UploadReply};
use crate::session;
use crate::session::{Moment, Session};
use crate::text;
use crate::text::NOT_PLAYING;

verus! {

/// What is to be done next about a report.
#[derive(Debug)]
pub enum UploadStep {
    /// Answer the client; there is nothing to write.
    Reply(UploadReply),
    /// Write this session for the user.
    Write(Session),
    /// Find out the game's name, starting with the names that the operator set.
    FindName,
}

/// Goes on from what the registry said on the arrival of a report: the state that the report is
/// about to change, if it changes one. The time is that of the decision.
pub fn after_begin(previous: Option<&AppState>, report: &ReportData, now: Moment) -> (step:
    UploadStep)
    ensures
        match step {
            UploadStep::Reply(reply) => previous is None && reply == UploadReply::Accepted,
            UploadStep::Write(session) => previous is Some && session::told_session(report@, now@)
                == Some(session@),
            UploadStep::FindName => previous is Some && session::told_session(report@, now@)
                is None,
        },
        step is Reply <==> previous is None,
        step matches UploadStep::Reply(reply) ==> reply == UploadReply::Accepted,
        step is FindName <==> previous is Some && report.app_id != 0 && report.game_name is None,
        step matches UploadStep::Write(session) ==> {
            if report.app_id == 0 || report.game_name->0@ == "0"@ || report.game_name->0@
                == "未在游玩"@ {
                session.game_name@ == "未在游玩"@ && session.start_time is None
            } else {
                session.game_name@ == report.game_name->0@ && session.start_time == Some(now)
            }
        },
{
    match previous {
        Some(_) => match session::session_from_report(report, now) {
            Some(session) => UploadStep::Write(session),
            None => UploadStep::FindName,
        },
        None => UploadStep::Reply(UploadReply::Accepted),
    }
}

/// Whether `session` is one that a report can lead to: the one that it tells, or, where it leaves
/// the name open, one with whatever name is found, started at `now`.
pub open spec fn leads_to(
    report: protocol::Report,
    session: session::SessionValue,
    now: session::TimePoint,
) -> bool {
    match session::told_session(report, now) {
        Some(told) => session == told,
        None => session.start == Some(now),
    }
}

/// The states after a report that arrived at `received`, led to `session` and was written at
/// `now` with no other report in between.
pub open spec fn uploaded(
    states: Map<Seq<char>, registry::UserState>,
    report: protocol::Report,
    received: u64,
    session: session::SessionValue,
    now: u64,
) -> Map<Seq<char>, registry::UserState> {
    let states = registry::entered(states, report.token, received);
    if registry::changes(states[report.token], report) {
        registry::written(
            states,
            report.token,
            registry::state_with(report.app_id, session, received),
            now,
        )
    } else {
        states
    }
}

/// A report says nothing about any user but its own, at neither of its two passages.
pub proof fn lemma_users_are_apart(
    states: Map<Seq<char>, registry::UserState>,
    token: Seq<char>,
    next: registry::UserState,
    now: u64,
    other: Seq<char>,
)
    requires
        other != token,
    ensures
        registry::entered(states, token, now).contains_key(other) == states.contains_key(other),
        registry::entered(states, token, now)[other] == states[other],
        registry::written(states, token, next, now).contains_key(other) == states.contains_key(
            other,
        ),
        registry::written(states, token, next, now)[other] == states[other],
{
}

/// No user is ever forgotten, and the time of a user's state never goes back.
pub proof fn lemma_states_move_forward(
    states: Map<Seq<char>, registry::UserState>,
    token: Seq<char>,
    next: registry::UserState,
    now: u64,
    user: Seq<char>,
)
    requires
        states.contains_key(user),
    ensures
        registry::entered(states, token, now).contains_key(user),
        registry::entered(states, token, now)[user] == states[user],
        registry::written(states, token, next, now).contains_key(user),
        registry::written(states, token, next, now)[user].updated >= states[user].updated,
{
}

/// A request that arrived before the one whose result is already written changes nothing.
pub proof fn lemma_late_result_is_dropped(
    states: Map<Seq<char>, registry::UserState>,
    token: Seq<char>,
    next: registry::UserState,
    now: u64,
)
    requires
        states.contains_key(token),
        states[token].updated > next.updated,
    ensures
        registry::written(states, token, next, now) == states,
{
}

/// Two results end in the same states whichever is written first: of two requests for one user,
/// the one that arrived later counts.
pub proof fn lemma_order_of_writes_does_not_matter(
    states: Map<Seq<char>, registry::UserState>,
    token_a: Seq<char>,
    next_a: registry::UserState,
    token_b: Seq<char>,
    next_b: registry::UserState,
    now: u64,
    later: u64,
)
    requires
        states.contains_key(token_a),
        states.contains_key(token_b),
        token_a == token_b ==> next_a.updated != next_b.updated,
    ensures
        registry::written(
            registry::written(states, token_a, next_a, now),
            token_b,
            next_b,
            later,
        ) == registry::written(
            registry::written(states, token_b, next_b, now),
            token_a,
            next_a,
            later,
        ),
{
    assert(registry::written(
        registry::written(states, token_a, next_a, now),
        token_b,
        next_b,
        later,
    ) =~= registry::written(
        registry::written(states, token_b, next_b, now),
        token_a,
        next_a,
        later,
    ));
}

/// The states after a number of results for one user, each with the time at which it was written,
/// in the order in which they were written.
pub open spec fn all_written(
    states: Map<Seq<char>, registry::UserState>,
    token: Seq<char>,
    results: Seq<(registry::UserState, u64)>,
) -> Map<Seq<char>, registry::UserState>
    decreases results.len(),
{
    if results.len() == 0 {
        states
    } else {
        registry::written(
            all_written(states, token, results.drop_last()),
            token,
            results.last().0,
            results.last().1,
        )
    }
}

/// However many results are written for a user, and in whatever order, what stays is one of them
/// or the state before, and no request arrived later than the one it comes from.
pub proof fn lemma_latest_request_counts(
    states: Map<Seq<char>, registry::UserState>,
    token: Seq<char>,
    results: Seq<(registry::UserState, u64)>,
)
    requires
        states.contains_key(token),
    ensures
        ({
            let after = all_written(states, token, results);
            &&& after.contains_key(token)
            &&& after[token].updated >= states[token].updated
            &&& forall|i: int|
                0 <= i < results.len() ==> after[token].updated >= (
                #[trigger] results[i]).0.updated
            &&& after[token] == states[token] || exists|i: int|
                0 <= i < results.len() && after[token] == (#[trigger] results[i]).0
        }),
    decreases results.len(),
{
    if results.len() > 0 {
        let front = results.drop_last();
        lemma_latest_request_counts(states, token, front);
        let before = all_written(states, token, front);
        let after = all_written(states, token, results);
        let last = results.len() - 1;
        assert(results[last] == results.last());
        assert forall|i: int| 0 <= i < results.len() implies after[token].updated >= (
        #[trigger] results[i]).0.updated by {
            if i < last {
                assert(front[i] == results[i]);
            }
        }
        if after[token] == before[token] && before[token] != states[token] {
            let i = choose|i: int| 0 <= i < front.len() && before[token] == (#[trigger] front[i]).0;
            assert(results[i] == front[i]);
        }
    }
}

/// What a display sees after a report that changed something and came no earlier than the last
/// one written for its user: nothing where the report led to no game, else the session, by its
/// name, its id and its start.
pub proof fn lemma_display_shows_report(
    states: Map<Seq<char>, registry::UserState>,
    report: protocol::Report,
    received: u64,
    session: session::SessionValue,
    written_at: u64,
    boot_id: Seq<char>,
    template: Seq<char>,
    now: u64,
)
    requires
        registry::changes(registry::entered(states, report.token, received)[report.token], report),
        states.contains_key(report.token) ==> states[report.token].updated <= received,
    ensures
        ({
            let after = uploaded(states, report, received, session, written_at);
            let shown = registry::answer(after, boot_id, report.token, template, now);
            let start = match session.start {
                Some(start) => Some(start.nanos),
                None => None,
            };
            &&& after[report.token] == registry::state_with(report.app_id, session, received)
            &&& shown.boot_id == boot_id
            &&& shown.is_running == (session.game_name != NOT_PLAYING@)
            &&& !shown.is_running ==> shown.render == Seq::<char>::empty() && shown.signature
                == registry::IDLE_SIGNATURE@
            &&& shown.is_running ==> shown.signature == registry::session_signature(
                report.app_id,
                session.start,
            ) && shown.render == crate::card::filled(
                template,
                registry::STATUS_TEXT@,
                session.game_name,
                crate::card::shown_play_time(start, now),
            )
        }),
{
}

/// A display is told that its token is not known until a report has named it, and never after.
pub proof fn lemma_first_report_makes_token_known(
    states: Map<Seq<char>, registry::UserState>,
    report: protocol::Report,
    received: u64,
    session: session::SessionValue,
    written_at: u64,
    boot_id: Seq<char>,
    token: Seq<char>,
    template: Seq<char>,
    now: u64,
)
    ensures
        uploaded(states, report, received, session, written_at).contains_key(report.token),
        states.contains_key(token) ==> uploaded(
            states,
            report,
            received,
            session,
            written_at,
        ).contains_key(token),
        (registry::answer(states, boot_id, token, template, now).signature
            == registry::UNKNOWN_TOKEN_SIGNATURE@) == !states.contains_key(token),
{
    lemma_signature_of_running_game(states[token].app_id, states[token].start);
}

/// A report of id 0 clears the display, whatever it says besides, where it changes anything.
pub proof fn lemma_id_zero_ends_session(
    report: protocol::Report,
    session: session::SessionValue,
    now: session::TimePoint,
)
    requires
        report.app_id == 0,
        leads_to(report, session, now),
    ensures
        session == session::no_session(),
{
}

/// Sending a report again changes nothing, so that the session and its start stay as they are. A
/// name that stands for "nothing runs" without being the one that is shown, and any name beside
/// id 0, are not recognised.
pub proof fn lemma_repeated_report_changes_nothing(
    states: Map<Seq<char>, registry::UserState>,
    report: protocol::Report,
    received: u64,
    session: session::SessionValue,
    started: session::TimePoint,
    written_at: u64,
    received_again: u64,
    session_again: session::SessionValue,
    written_again_at: u64,
)
    requires
        leads_to(report, session, started),
        states.contains_key(report.token) ==> states[report.token].updated <= received,
        report.game_name matches Some(name) ==> name == NOT_PLAYING@ || (report.app_id != 0 && name
            != "0"@),
    ensures
        ({
            let after = uploaded(states, report, received, session, written_at);
            uploaded(after, report, received_again, session_again, written_again_at) == after
        }),
{
}

/// What holds of the state of every user: where there is no start, nothing is shown to run, and
/// where the id is 0 there is no start.
pub open spec fn sound(state: registry::UserState) -> bool {
    &&& state.start is None ==> state.game_name == NOT_PLAYING@
    &&& state.app_id == 0 ==> state.start is None
}

/// One passage of a report through the registry.
pub enum Passage {
    /// The report arrives.
    Arrival { report: protocol::Report, received: u64 },
    /// The session to which the report led at `started` is written.
    Result {
        report: protocol::Report,
        received: u64,
        session: session::SessionValue,
        started: session::TimePoint,
        now: u64,
    },
}

impl Passage {
    /// Whether the session that is written is one to which its report can lead.
    pub open spec fn possible(self) -> bool {
        match self {
            Passage::Arrival { .. } => true,
            Passage::Result { report, session, started, .. } => leads_to(report, session, started),
        }
    }

    /// The states after the passage.
    pub open spec fn passed(
        self,
        states: Map<Seq<char>, registry::UserState>,
    ) -> Map<Seq<char>, registry::UserState> {
        match self {
            Passage::Arrival { report, received } => registry::entered(
                states,
                report.token,
                received,
            ),
            Passage::Result { report, received, session, now, .. } => registry::written(
                states,
                report.token,
                registry::state_with(report.app_id, session, received),
                now,
            ),
        }
    }
}

/// The states after these passages, in this order, through a new registry.
pub open spec fn all_passed(passages: Seq<Passage>) -> Map<Seq<char>, registry::UserState>
    decreases passages.len(),
{
    if passages.len() == 0 {
        Map::empty()
    } else {
        passages.last().passed(all_passed(passages.drop_last()))
    }
}

/// Every state that reports can lead to, in whatever order they pass the registry and however they
/// overtake each other: where there is no start, nothing is shown to run, and where the id is 0
/// there is no start.
pub proof fn lemma_every_state_is_sound(passages: Seq<Passage>, token: Seq<char>)
    requires
        forall|i: int| 0 <= i < passages.len() ==> (#[trigger] passages[i]).possible(),
        all_passed(passages).contains_key(token),
    ensures
        sound(all_passed(passages)[token]),
    decreases passages.len(),
{
    let front = passages.drop_last();
    let last = passages[passages.len() - 1];
    assert forall|i: int| 0 <= i < front.len() implies (#[trigger] front[i]).possible() by {
        assert(front[i] == passages[i]);
    }
    assert(last.possible());
    if all_passed(front).contains_key(token) {
        lemma_every_state_is_sound(front, token);
    }
}

/// A link with the decimal text of an id makes the report that a client with that id would send.
pub proof fn lemma_link_with_id(token: Seq<char>, app_id: u32)
    ensures
        session::linked_report(token, text::decimal(app_id as nat)) == (protocol::Report {
            app_id,
            token,
            game_name: None,
        }),
{
    text::lemma_parse_decimal(app_id);
}

/// The signature of a running game tells its sessions apart: by the id, by whether the start is
/// known, and by the start as the clock writes it.
pub proof fn lemma_signature_names_session(
    id_a: u32,
    start_a: Option<session::TimePoint>,
    id_b: u32,
    start_b: Option<session::TimePoint>,
)
    requires
        registry::session_signature(id_a, start_a) == registry::session_signature(id_b, start_b),
    ensures
        id_a == id_b,
        start_a is Some <==> start_b is Some,
        start_a is Some && start_b is Some ==> start_a->0.label == start_b->0.label,
{
    let (da, db) = (text::decimal(id_a as nat), text::decimal(id_b as nat));
    let signature = registry::session_signature(id_a, start_a);
    text::lemma_decimal(id_a as nat);
    text::lemma_decimal(id_b as nat);
    assert(!text::is_digit('_'));
    if start_a is Some {
        assert(signature[da.len() as int] == '_');
    }
    if start_b is Some {
        assert(signature[db.len() as int] == '_');
    }
    if da.len() < db.len() {
        assert(signature[da.len() as int] == db[da.len() as int]);
        assert(start_a is None ==> signature.len() == da.len());
    }
    if db.len() < da.len() {
        assert(signature[db.len() as int] == da[db.len() as int]);
        assert(start_b is None ==> signature.len() == db.len());
    }
    assert(signature.take(da.len() as int) =~= da);
    assert(signature.take(db.len() as int) =~= db);
    text::lemma_decimal_injective(id_a as nat, id_b as nat);
    if start_a is Some && start_b is Some {
        assert(signature.skip((da.len() + 1) as int) =~= start_a->0.label);
        assert(signature.skip((db.len() + 1) as int) =~= start_b->0.label);
    }
}

/// Whether the clock writes two starts alike only where they are the same.
pub open spec fn written_apart(
    a: Option<session::TimePoint>,
    b: Option<session::TimePoint>,
) -> bool {
    a is Some && b is Some && a->0.label == b->0.label ==> a == b
}

/// Two displays of running games, whenever and of whomever, get the same signature where the id and
/// the start are the same: passing time, the template and the name alone do not change it. A
/// change of id changes it, and so does a start that the clock writes differently. With a clock
/// that writes different starts differently, the signatures are the same just where the id and the
/// start are. The signature starts with the id.
pub proof fn lemma_signature_follows_id_and_start(
    states_a: Map<Seq<char>, registry::UserState>,
    boot_a: Seq<char>,
    token_a: Seq<char>,
    template_a: Seq<char>,
    now_a: u64,
    states_b: Map<Seq<char>, registry::UserState>,
    boot_b: Seq<char>,
    token_b: Seq<char>,
    template_b: Seq<char>,
    now_b: u64,
)
    requires
        states_a.contains_key(token_a) && states_a[token_a].game_name != NOT_PLAYING@,
        states_b.contains_key(token_b) && states_b[token_b].game_name != NOT_PLAYING@,
    ensures
        ({
            let (a, b) = (states_a[token_a], states_b[token_b]);
            let shown_a = registry::answer(states_a, boot_a, token_a, template_a, now_a);
            let shown_b = registry::answer(states_b, boot_b, token_b, template_b, now_b);
            &&& a.app_id == b.app_id && a.start == b.start ==> shown_a.signature
                == shown_b.signature
            &&& shown_a.signature == shown_b.signature ==> a.app_id == b.app_id
            &&& shown_a.signature == shown_b.signature ==> (a.start is Some <==> b.start is Some)
            &&& shown_a.signature == shown_b.signature && a.start is Some ==> a.start->0.label
                == b.start->0.label
            &&& written_apart(a.start, b.start) ==> (shown_a.signature == shown_b.signature
                <==> a.app_id == b.app_id && a.start == b.start)
            &&& text::decimal(a.app_id as nat).is_prefix_of(shown_a.signature)
        }),
{
    let (a, b) = (states_a[token_a], states_b[token_b]);
    let (sig_a, sig_b) = (
        registry::session_signature(a.app_id, a.start),
        registry::session_signature(b.app_id, b.start),
    );
    if sig_a == sig_b {
        lemma_signature_names_session(a.app_id, a.start, b.app_id, b.start);
    }
    assert(sig_a.take(text::decimal(a.app_id as nat).len() as int) =~= text::decimal(
        a.app_id as nat,
    ));
}

/// The signature of a running game is never the one for "nothing runs" or for an unknown token.
pub proof fn lemma_signature_of_running_game(app_id: u32, start: Option<session::TimePoint>)
    ensures
        registry::session_signature(app_id, start) != registry::IDLE_SIGNATURE@,
        registry::session_signature(app_id, start) != registry::UNKNOWN_TOKEN_SIGNATURE@,
        registry::IDLE_SIGNATURE@ != registry::UNKNOWN_TOKEN_SIGNATURE@,
{
    reveal_strlit("idle");
    reveal_strlit("invalid_token");
    assert("idle"@.len() != "invalid_token"@.len());
    text::lemma_decimal(app_id as nat);
    let signature = registry::session_signature(app_id, start);
    assert(signature[0] == text::decimal(app_id as nat)[0]);
    assert(text::is_digit(signature[0]));
    assert("idle"@[0] == 'i' && "invalid_token"@[0] == 'i');
}

/// A report by an id other than the one that is kept, and a report by a name other than the one
/// that is shown, are always written when they come no earlier than the last write: the user's
/// state then has the id of the report, the name and the start of the session that it led to, and
/// the time at which it arrived. Any other report leaves all states as they were.
pub proof fn lemma_other_game_is_always_written(
    states: Map<Seq<char>, registry::UserState>,
    report: protocol::Report,
    received: u64,
    session: session::SessionValue,
    now: u64,
)
    requires
        states.contains_key(report.token),
        states[report.token].updated <= received,
    ensures
        ({
            let kept = states[report.token];
            let other = match report.game_name {
                Some(name) => kept.game_name != name,
                None => kept.app_id != report.app_id,
            };
            let after = uploaded(states, report, received, session, now);
            &&& other ==> {
                &&& after.contains_key(report.token)
                &&& after[report.token].app_id == report.app_id
                &&& after[report.token].game_name == session.game_name
                &&& after[report.token].start == session.start
                &&& after[report.token].updated == received
                &&& after.remove(report.token) == states.remove(report.token)
            }
            &&& !other ==> after == states
        }),
{
    let after = uploaded(states, report, received, session, now);
    assert(after.remove(report.token) =~= states.remove(report.token));
}

/// The first report of a user is written unless it says that nothing runs, by id 0 or by the name
/// for that.
pub proof fn lemma_first_game_is_always_written(
    states: Map<Seq<char>, registry::UserState>,
    report: protocol::Report,
    received: u64,
    session: session::SessionValue,
    now: u64,
)
    requires
        !states.contains_key(report.token),
        match report.game_name {
            Some(name) => name != "未在游玩"@,
            None => report.app_id != 0,
        },
    ensures
        ({
            let after = uploaded(states, report, received, session, now);
            &&& after.contains_key(report.token)
            &&& after[report.token].app_id == report.app_id
            &&& after[report.token].game_name == session.game_name
            &&& after[report.token].start == session.start
            &&& after[report.token].updated == received
        }),
{
}

/// A game that is reported by its name is shown, to a display that asks some time after the session
/// started, as running, under the whole name and with the play time of just that time.
pub proof fn lemma_named_game_is_shown_with_its_time(
    states: Map<Seq<char>, registry::UserState>,
    report: protocol::Report,
    received: u64,
    name: Seq<char>,
    started: session::TimePoint,
    written_at: u64,
    boot_id: Seq<char>,
    template: Seq<char>,
    passed: u64,
)
    requires
        report.app_id != 0,
        report.game_name == Some(name),
        name != "0"@,
        name != "未在游玩"@,
        states.contains_key(report.token),
        states[report.token].updated <= received,
        states[report.token].game_name != name,
        started.nanos + passed <= u64::MAX,
    ensures
        ({
            let session = session::told_session(report, started)->0;
            let after = uploaded(states, report, received, session, written_at);
            let shown = registry::answer(
                after,
                boot_id,
                report.token,
                template,
                (started.nanos + passed) as u64,
            );
            &&& shown.is_running
            &&& shown.boot_id == boot_id
            &&& shown.signature == text::decimal(report.app_id as nat) + seq!['_'] + started.label
            &&& shown.render == crate::card::filled(
                template,
                "当前游戏"@,
                name,
                crate::playtime::play_time((passed / 1_000_000_000) as nat),
            )
        }),
{
    session::lemma_told_session_starts_now(report, started, name, passed);
}

/// A game whose name was found out for a report by id is shown, to a display that asks some time
/// after the session started, under that name in full and with the play time of just that time.
pub proof fn lemma_found_game_is_shown_with_its_time(
    states: Map<Seq<char>, registry::UserState>,
    report: protocol::Report,
    received: u64,
    found: Seq<char>,
    started: session::TimePoint,
    written_at: u64,
    boot_id: Seq<char>,
    template: Seq<char>,
    passed: u64,
)
    requires
        report.game_name is None,
        found != "未在游玩"@,
        states.contains_key(report.token),
        states[report.token].updated <= received,
        states[report.token].app_id != report.app_id,
        started.nanos + passed <= u64::MAX,
    ensures
        ({
            let session = session::SessionValue { game_name: found, start: Some(started) };
            let after = uploaded(states, report, received, session, written_at);
            let shown = registry::answer(
                after,
                boot_id,
                report.token,
                template,
                (started.nanos + passed) as u64,
            );
            &&& shown.is_running
            &&& shown.signature == text::decimal(report.app_id as nat) + seq!['_'] + started.label
            &&& shown.render == crate::card::filled(
                template,
                "当前游戏"@,
                found,
                crate::playtime::play_time((passed / 1_000_000_000) as nat),
            )
        }),
{
    crate::card::lemma_shown_play_time_counts_from_start(started.nanos, passed);
}

} // verus!
