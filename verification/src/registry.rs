//! The registry: what the server knows of each user's game, how reports change that, and what the
//! displays are answered.
use vstd::hash_map::StringHashMap;
use vstd::prelude::*;
use vstd::string::*;

use crate::card;
use crate::protocol;
use crate::protocol::{CurrentGameResponse, GameInfo, ReportData, ServerInfo};
use crate::session;
use crate::session::{Moment, Session};
use crate::text;
use crate::text::NOT_PLAYING;

verus! {

/// What stands on the card in front of the game.
pub const STATUS_TEXT: &'static str = "当前游戏";

/// The signature that displays get for a token that no report ever named.
pub const UNKNOWN_TOKEN_SIGNATURE: &'static str = "invalid_token";

/// The signature that displays get while nothing runs.
pub const IDLE_SIGNATURE: &'static str = "idle";

/// What is known of one user's game.
#[derive(Debug)]
pub struct AppState {
    /// The application id last reported.
    pub current_app_id: u32,
    /// The name that is shown.
    pub current_game_name: String,
    /// When the session started, while a game runs.
    pub session_start_time: Option<Moment>,
    /// When the request arrived that wrote this state, in nanoseconds since the server was started.
    pub last_updated_at: u64,
}

/// The state of one user as a mathematical value.
pub struct UserState {
    pub app_id: u32,
    pub game_name: Seq<char>,
    pub start: Option<session::TimePoint>,
    pub updated: u64,
}

impl View for AppState {
    type V = UserState;

    open spec fn view(&self) -> UserState {
        UserState {
            app_id: self.current_app_id,
            game_name: self.current_game_name@,
            start: session::time_point_in(self.session_start_time),
            updated: self.last_updated_at,
        }
    }
}

impl Clone for AppState {
    fn clone(&self) -> (copy: AppState)
        ensures
            copy == *self,
    {
        AppState {
            current_app_id: self.current_app_id,
            current_game_name: self.current_game_name.clone(),
            session_start_time: match &self.session_start_time {
                Some(start) => Some(start.clone()),
                None => None,
            },
            last_updated_at: self.last_updated_at,
        }
    }
}

/// The state of a user who plays nothing, last written at `at`.
pub open spec fn idle_state(at: u64) -> UserState {
    UserState { app_id: 0, game_name: NOT_PLAYING@, start: None, updated: at }
}

impl AppState {
    /// The state of a user of whom nothing was reported yet.
    pub fn default_at(now: u64) -> (state: AppState)
        ensures
            state@ == idle_state(now),
            state.current_app_id == 0 && state.current_game_name@ == "未在游玩"@,
            state.session_start_time is None && state.last_updated_at == now,
    {
        AppState {
            current_app_id: 0,
            current_game_name: NOT_PLAYING.to_owned(),
            session_start_time: None,
            last_updated_at: now,
        }
    }
}

/// The states of the users, by their tokens.
pub struct Registry {
    states: StringHashMap<AppState>,
}

impl View for Registry {
    type V = Map<Seq<char>, UserState>;

    closed spec fn view(&self) -> Map<Seq<char>, UserState> {
        self.states@.map_values(|state: AppState| state@)
    }
}

/// The states once `token` has one: an idle one, written at `at`, where it had none.
pub open spec fn entered(
    states: Map<Seq<char>, UserState>,
    token: Seq<char>,
    at: u64,
) -> Map<Seq<char>, UserState> {
    if states.contains_key(token) {
        states
    } else {
        states.insert(token, idle_state(at))
    }
}

/// Whether a report changes a state. A report with a name is compared by the name, one without by
/// the application id.
pub open spec fn changes(state: UserState, report: protocol::Report) -> bool {
    match report.game_name {
        Some(game_name) => state.game_name != game_name,
        None => state.app_id != report.app_id,
    }
}

/// The states after a write for `token` of what a request says that arrived at `next.updated`,
/// made at `now`. A state that a later request wrote stays.
pub open spec fn written(
    states: Map<Seq<char>, UserState>,
    token: Seq<char>,
    next: UserState,
    now: u64,
) -> Map<Seq<char>, UserState> {
    let states = entered(states, token, now);
    if states[token].updated > next.updated {
        states
    } else {
        states.insert(token, next)
    }
}

/// The short answer to a report.
#[derive(Debug, Clone, Copy, PartialEq, Eq, Structural)]
pub enum UploadReply {
    /// The report was taken in.
    Accepted,
    /// A later report had already been taken in.
    Ignored,
}

impl UploadReply {
    /// The answer as it is sent.
    pub fn text(&self) -> (text: &'static str)
        ensures
            text@ == (match *self {
                UploadReply::Accepted => "OK"@,
                UploadReply::Ignored => "Ignored"@,
            }),
    {
        match self {
            UploadReply::Accepted => "OK",
            UploadReply::Ignored => "Ignored",
        }
    }
}

impl Registry {
    /// A registry without users.
    pub fn new() -> (registry: Registry)
        ensures
            registry@ == Map::<Seq<char>, UserState>::empty(),
    {
        let registry = Registry { states: StringHashMap::new() };
        assert(registry@ =~= Map::<Seq<char>, UserState>::empty());
        registry
    }

    /// The state of a user.
    pub fn state_of(&self, token: &str) -> (state: Option<AppState>)
        ensures
            match state {
                Some(state) => self@.contains_key(token@) && state@ == self@[token@],
                None => !self@.contains_key(token@),
            },
    {
        match self.states.get(token) {
            Some(state) => Some(state.clone()),
            None => None,
        }
    }

    /// Takes in a report that arrived at `received`: gives its user a state where there is none
    /// yet, and hands out the state that the report is about to change, or `None` where it changes
    /// nothing.
    pub fn begin_upload(&mut self, report: &ReportData, received: u64) -> (previous: Option<
        AppState,
    >)
        ensures
            final(self)@ == entered(old(self)@, report@.token, received),
            previous is Some <==> changes(final(self)@[report@.token], report@),
            previous matches Some(state) ==> state@ == final(self)@[report@.token],
            old(self)@.contains_key(report.token@) ==> final(self)@ == old(self)@,
            !old(self)@.contains_key(report.token@) ==> final(self)@ == old(self)@.insert(
                report.token@,
                UserState { app_id: 0, game_name: "未在游玩"@, start: None, updated: received },
            ),
            previous is Some <==> (match report.game_name {
                Some(name) => final(self)@[report.token@].game_name != name@,
                None => final(self)@[report.token@].app_id != report.app_id,
            }),
            previous matches Some(state) ==> state.current_app_id
                == final(self)@[report.token@].app_id && state.current_game_name@
                == final(self)@[report.token@].game_name && session::time_point_in(
                state.session_start_time,
            ) == final(self)@[report.token@].start && state.last_updated_at
                == final(self)@[report.token@].updated,
    {
        let state = match self.state_of(report.token.as_str()) {
            Some(state) => state,
            None => {
                let fresh = AppState::default_at(received);
                self.states.insert(report.token.clone(), fresh.clone());
                fresh
            },
        };
        assert(self@ =~= entered(old(self)@, report@.token, received));
        let changed = match &report.game_name {
            Some(game_name) => !text::same_text(
                state.current_game_name.as_str(),
                game_name.as_str(),
            ),
            None => state.current_app_id != report.app_id,
        };
        if changed {
            Some(state)
        } else {
            None
        }
    }

    /// Writes what a request says about its user, unless a request that arrived later was faster.
    pub fn finish_upload(&mut self, token: &str, next: AppState, now: u64) -> (reply: UploadReply)
        ensures
            final(self)@ == written(old(self)@, token@, next@, now),
            reply == (if entered(old(self)@, token@, now)[token@].updated > next@.updated {
                UploadReply::Ignored
            } else {
                UploadReply::Accepted
            }),
            ({
                let last = if old(self)@.contains_key(token@) {
                    old(self)@[token@].updated
                } else {
                    now
                };
                &&& reply == UploadReply::Ignored <==> last > next.last_updated_at
                &&& reply == UploadReply::Accepted ==> final(self)@ == old(self)@.insert(
                    token@,
                    UserState {
                        app_id: next.current_app_id,
                        game_name: next.current_game_name@,
                        start: session::time_point_in(next.session_start_time),
                        updated: next.last_updated_at,
                    },
                )
                &&& reply == UploadReply::Ignored && old(self)@.contains_key(token@)
                    ==> final(self)@ == old(self)@
                &&& reply == UploadReply::Ignored && !old(self)@.contains_key(token@)
                    ==> final(self)@ == old(self)@.insert(
                    token@,
                    UserState { app_id: 0, game_name: "未在游玩"@, start: None, updated: now },
                )
            }),
    {
        let state = match self.state_of(token) {
            Some(state) => state,
            None => {
                let fresh = AppState::default_at(now);
                self.states.insert(token.to_owned(), fresh.clone());
                fresh
            },
        };
        assert(self@ =~= entered(old(self)@, token@, now));
        if state.last_updated_at > next.last_updated_at {
            return UploadReply::Ignored;
        }
        self.states.insert(token.to_owned(), next);
        assert(self@ =~= written(old(self)@, token@, next@, now));
        UploadReply::Accepted
    }
}

/// The state that a session makes of a user, by a request for that id that arrived at `received`.
pub open spec fn state_with(app_id: u32, session: session::SessionValue, received: u64) -> UserState {
    UserState { app_id, game_name: session.game_name, start: session.start, updated: received }
}

impl Session {
    /// The state to write for the user.
    pub fn into_state(self, app_id: u32, received: u64) -> (state: AppState)
        ensures
            state@ == state_with(app_id, self@, received),
            state.current_app_id == app_id && state.last_updated_at == received,
            state.current_game_name@ == self.game_name@,
            state.session_start_time == self.start_time,
    {
        AppState {
            current_app_id: app_id,
            current_game_name: self.game_name,
            session_start_time: self.start_time,
            last_updated_at: received,
        }
    }
}

/// What names a session: the application id, and the start as the clock writes it.
pub open spec fn session_signature(app_id: u32, start: Option<session::TimePoint>) -> Seq<char> {
    match start {
        Some(start) => text::decimal(app_id as nat) + seq!['_'] + start.label,
        None => text::decimal(app_id as nat),
    }
}

/// What a display is answered that asks for `token` at `now`, in nanoseconds.
pub open spec fn answer(
    states: Map<Seq<char>, UserState>,
    boot_id: Seq<char>,
    token: Seq<char>,
    template: Seq<char>,
    now: u64,
) -> protocol::Answer {
    if !states.contains_key(token) {
        protocol::Answer {
            boot_id,
            is_running: false,
            signature: UNKNOWN_TOKEN_SIGNATURE@,
            render: Seq::empty(),
        }
    } else if states[token].game_name == NOT_PLAYING@ {
        protocol::Answer {
            boot_id,
            is_running: false,
            signature: IDLE_SIGNATURE@,
            render: Seq::empty(),
        }
    } else {
        let state = states[token];
        let start = match state.start {
            Some(start) => Some(start.nanos),
            None => None,
        };
        protocol::Answer {
            boot_id,
            is_running: true,
            signature: session_signature(state.app_id, state.start),
            render: card::filled(
                template,
                STATUS_TEXT@,
                state.game_name,
                card::shown_play_time(start, now),
            ),
        }
    }
}

/// Names a session.
pub fn signature_text(app_id: u32, start: Option<&Moment>) -> (signature: String)
    ensures
        signature@ == session_signature(
            app_id,
            match start {
                Some(start) => Some(start@),
                None => None,
            },
        ),
        match start {
            Some(start) => signature@ == text::decimal(app_id as nat) + seq!['_'] + start.label@,
            None => signature@ == text::decimal(app_id as nat),
        },
{
    let mut signature = text::decimal_text(app_id as u64);
    match start {
        Some(start) => {
            proof {
                reveal_strlit("_");
                assert("_"@ =~= seq!['_']);
            }
            signature.append("_");
            signature.append(start.label.as_str());
        },
        None => {},
    }
    signature
}

impl Registry {
    /// Answers a display that asks for `token` at `now`, in nanoseconds since the server was
    /// started.
    pub fn current_game(&self, boot_id: &str, token: &str, template: &str, now: u64) -> (response:
        CurrentGameResponse)
        ensures
            response@ == answer(self@, boot_id@, token@, template@, now),
            response.server.boot_id@ == boot_id@,
            response.info.is_running <==> self@.contains_key(token@) && self@[token@].game_name
                != "未在游玩"@,
            !response.info.is_running ==> response.render@.len() == 0,
            !self@.contains_key(token@) ==> response.info.signature@ == "invalid_token"@,
            self@.contains_key(token@) && !response.info.is_running ==> response.info.signature@
                == "idle"@,
            response.info.is_running ==> (match self@[token@].start {
                Some(start) => response.info.signature@ == text::decimal(
                    self@[token@].app_id as nat,
                ) + seq!['_'] + start.label && response.render@ == card::filled(
                    template@,
                    "当前游戏"@,
                    self@[token@].game_name,
                    crate::playtime::play_time(
                        if start.nanos <= now {
                            ((now - start.nanos) / 1_000_000_000) as nat
                        } else {
                            0
                        },
                    ),
                ),
                None => response.info.signature@ == text::decimal(self@[token@].app_id as nat)
                    && response.render@ == card::filled(
                    template@,
                    "当前游戏"@,
                    self@[token@].game_name,
                    "00:00"@,
                ),
            }),
    {
        let server = ServerInfo { boot_id: boot_id.to_owned() };
        let state = match self.state_of(token) {
            Some(state) => state,
            None => {
                return CurrentGameResponse {
                    server,
                    info: GameInfo {
                        is_running: false,
                        signature: UNKNOWN_TOKEN_SIGNATURE.to_owned(),
                    },
                    render: String::new(),
                };
            },
        };
        if text::same_text(state.current_game_name.as_str(), NOT_PLAYING) {
            return CurrentGameResponse {
                server,
                info: GameInfo { is_running: false, signature: IDLE_SIGNATURE.to_owned() },
                render: String::new(),
            };
        }
        let start = match &state.session_start_time {
            Some(start) => Some(start.nanos),
            None => None,
        };
        let play_time = card::play_time_text(start, now);
        let render = card::fill(
            template,
            STATUS_TEXT,
            state.current_game_name.as_str(),
            play_time.as_str(),
        );
        let signature = match &state.session_start_time {
            Some(start) => signature_text(state.current_app_id, Some(start)),
            None => signature_text(state.current_app_id, None),
        };
        CurrentGameResponse { server, info: GameInfo { is_running: true, signature }, render }
    }
}

/// The value of a state is all that is in it, each in full.
pub proof fn lemma_state_value(state: AppState)
    ensures
        state@.app_id == state.current_app_id,
        state@.game_name == state.current_game_name@,
        state.session_start_time is None ==> state@.start is None,
        state.session_start_time matches Some(start) ==> state@.start == Some(start@),
        state@.updated == state.last_updated_at,
{
}

/// A report by id changes a state just where the id is another, and a report by name just where the
/// name is another.
pub proof fn lemma_what_changes(state: UserState, report: protocol::Report)
    ensures
        report.game_name is None ==> (changes(state, report) <==> state.app_id != report.app_id),
        report.game_name matches Some(name) ==> (changes(state, report) <==> state.game_name
            != name),
{
}

/// A user of whom nothing was known plays nothing: with id 0, the name for that, no start, and the
/// time at which the state was made. A user of whom something is known keeps it.
pub proof fn lemma_new_user_is_idle(
    states: Map<Seq<char>, UserState>,
    token: Seq<char>,
    at: u64,
)
    ensures
        states.contains_key(token) ==> entered(states, token, at) == states,
        !states.contains_key(token) ==> entered(states, token, at) == states.insert(
            token,
            UserState { app_id: 0, game_name: "未在游玩"@, start: None, updated: at },
        ),
{
}

/// A result whose request arrived no earlier than the last one written is what the user's state is
/// from then on, in full; an earlier one leaves every state as it was.
pub proof fn lemma_write_is_kept_in_full(
    states: Map<Seq<char>, UserState>,
    token: Seq<char>,
    next: UserState,
    now: u64,
)
    requires
        states.contains_key(token),
    ensures
        next.updated >= states[token].updated ==> written(states, token, next, now)
            == states.insert(token, next),
        next.updated < states[token].updated ==> written(states, token, next, now) == states,
{
}

} // verus!
