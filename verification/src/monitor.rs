//! The monitor: watches the game that runs on this machine and shows it.
use dashmap::DashMap;
use vstd::prelude::*;
use vstd::string::*;

use crate::card;
use crate::lookup;
use crate::store;
use crate::store::StoreResponse;
use crate::text;
use crate::text::NOT_PLAYING;

verus! {

/// What stands on the card in front of the game.
pub const STATUS_TEXT: &'static str = "正在游玩";

/// `dashmap::DashMap`, a map that can be shared between threads. What it holds is known by
/// `names_held` alone.
#[verifier::external_type_specification]
#[verifier::external_body]
#[verifier::reject_recursive_types(K)]
#[verifier::reject_recursive_types(V)]
#[verifier::reject_recursive_types(S)]
pub struct ExDashMap<K, V, S>(DashMap<K, V, S>);

/// The names that a map holds, by application id.
pub uninterp spec fn names_held(map: DashMap<u32, String>) -> Map<u32, Seq<char>>;

/// `dashmap::DashMap::new` makes a map that holds nothing.
#[verifier::external_body]
fn new_map() -> (map: DashMap<u32, String>)
    ensures
        forall|app_id: u32| !#[trigger] names_held(map).contains_key(app_id),
{
    DashMap::new()
}

/// `dashmap::DashMap::get` finds the value under a key, or nothing where the key is not held. The
/// value is handed out as a copy.
#[verifier::external_body]
fn get_name(map: &DashMap<u32, String>, app_id: u32) -> (name: Option<String>)
    ensures
        match name {
            Some(name) => names_held(*map).contains_key(app_id) && name@ == names_held(
                *map,
            )[app_id],
            None => !names_held(*map).contains_key(app_id),
        },
{
    match map.get(&app_id) {
        Some(name) => Some(name.value().clone()),
        None => None,
    }
}

/// `dashmap::DashMap::insert` puts a value under a key, in place of the one that stood there. The
/// map is borrowed for writing, so that nothing else changes it meanwhile.
#[verifier::external_body]
fn insert_name(map: &mut DashMap<u32, String>, app_id: u32, name: String)
    ensures
        names_held(*final(map)) == names_held(*old(map)).insert(app_id, name@),
{
    map.insert(app_id, name);
}

/// The names that the store gave, by application id.
pub struct NameCache {
    names: DashMap<u32, String>,
}

impl View for NameCache {
    type V = Map<u32, Seq<char>>;

    closed spec fn view(&self) -> Map<u32, Seq<char>> {
        names_held(self.names)
    }
}

/// What a look at the machine comes down to.
#[derive(Debug)]
pub enum StateUpdateResult {
    /// Nothing could be found out; what is shown stays.
    Unchanged,
    /// This game runs.
    Success(String),
    /// A game runs whose name could not be found out; this is shown in its place.
    ErrorWithMsg(String),
}

/// The same as a mathematical value.
pub enum Update {
    Nothing,
    Game(Seq<char>),
    Failure(Seq<char>),
}

impl View for StateUpdateResult {
    type V = Update;

    open spec fn view(&self) -> Update {
        match self {
            StateUpdateResult::Unchanged => Update::Nothing,
            StateUpdateResult::Success(name) => Update::Game(name@),
            StateUpdateResult::ErrorWithMsg(message) => Update::Failure(message@),
        }
    }
}

/// What is to be done next about a look at the machine.
#[derive(Debug)]
pub enum TickStep {
    /// Show this.
    Apply(StateUpdateResult),
    /// Ask the store for the name of this application first.
    FetchName(u32),
}

/// What came back from the store.
#[derive(Debug)]
pub enum StoreReply {
    /// The request failed.
    Unreachable,
    /// The entry of the application, where the reply had one that could be read.
    Entry(Option<StoreResponse>),
}

/// The application that runs, from the number that Steam keeps: 0 and no number mean none.
pub fn running_app_id(kept: Option<u32>) -> (app_id: Option<u32>)
    ensures
        app_id == (if kept == Some(0u32) {
            None::<u32>
        } else {
            kept
        }),
{
    match kept {
        Some(app_id) => if app_id > 0 {
            Some(app_id)
        } else {
            None
        },
        None => None,
    }
}

/// The name that the store's reply gives, or what is shown in its place: that the store cannot be
/// reached, or that the game is not known.
pub fn fetched_name(app_id: u32, reply: StoreReply) -> (name: Result<String, String>)
    ensures
        match name {
            Ok(name) => reply matches StoreReply::Entry(entry) && store::name_in(entry) == Some(
                name@,
            ),
            Err(message) => match reply {
                StoreReply::Unreachable => message@ == store::network_error(app_id),
                StoreReply::Entry(entry) => store::name_in(entry) is None && message@
                    == store::unknown_game(app_id),
            },
        },
        match reply {
            StoreReply::Entry(Some(entry)) => name is Ok <==> entry.success && entry.data is Some,
            _ => name is Err,
        },
        name matches Ok(name) ==> (reply matches StoreReply::Entry(Some(entry)) && name@
            == entry.data->0.name@),
        name matches Err(message) ==> (match reply {
            StoreReply::Unreachable => message@ == "网络错误 ("@ + text::decimal(app_id as nat)
                + ")"@,
            StoreReply::Entry(_) => message@ == "未知游戏 ("@ + text::decimal(app_id as nat)
                + ")"@,
        }),
{
    match reply {
        StoreReply::Unreachable => Err(store::network_error_text(app_id)),
        StoreReply::Entry(entry) => match store::entry_name(entry) {
            Some(name) => Ok(name),
            None => Err(store::unknown_game_text(app_id)),
        },
    }
}

/// What the application that runs comes down to without the store's help, or `None` where the
/// store has to be asked.
pub open spec fn seen(cache: Map<u32, Seq<char>>, app_id: Option<u32>) -> Option<Update> {
    match app_id {
        Some(app_id) => if cache.contains_key(app_id) {
            Some(Update::Game(cache[app_id]))
        } else {
            None
        },
        None => Some(Update::Game(NOT_PLAYING@)),
    }
}

/// What the store's answer comes down to.
pub open spec fn answered(fetched: Result<String, String>) -> Update {
    match fetched {
        Ok(name) => Update::Game(name@),
        Err(message) => Update::Failure(message@),
    }
}

/// What one look at the machine comes down to, with what the store's answer comes down to where
/// the store is asked.
pub open spec fn looked(
    cache: Map<u32, Seq<char>>,
    app_id: Option<u32>,
    answer: Update,
) -> Update {
    match seen(cache, app_id) {
        Some(update) => update,
        None => answer,
    }
}

/// Whether an update is one that the store's answer about an application can come down to: a name,
/// or one of the texts that stand in for it.
pub open spec fn is_answer(app_id: u32, answer: Update) -> bool {
    match answer {
        Update::Nothing => false,
        Update::Game(_) => true,
        Update::Failure(message) => message == store::unknown_game(app_id) || message
            == store::network_error(app_id),
    }
}

impl NameCache {
    /// A cache without names.
    pub fn new() -> (cache: NameCache)
        ensures
            cache@ == Map::<u32, Seq<char>>::empty(),
    {
        let cache = NameCache { names: new_map() };
        assert(cache@ =~= Map::<u32, Seq<char>>::empty());
        cache
    }

    /// Goes on from the application that runs.
    pub fn begin_tick(&self, app_id: Option<u32>) -> (step: TickStep)
        ensures
            match step {
                TickStep::Apply(update) => seen(self@, app_id) == Some(update@),
                TickStep::FetchName(wanted) => seen(self@, app_id) is None && app_id == Some(
                    wanted,
                ),
            },
            match app_id {
                Some(id) => if self@.contains_key(id) {
                    step matches TickStep::Apply(StateUpdateResult::Success(name)) && name@
                        == self@[id]
                } else {
                    step matches TickStep::FetchName(wanted) && wanted == id
                },
                None => step matches TickStep::Apply(StateUpdateResult::Success(name)) && name@
                    == "未在游玩"@,
            },
    {
        match app_id {
            Some(app_id) => match get_name(&self.names, app_id) {
                Some(name) => TickStep::Apply(StateUpdateResult::Success(name)),
                None => TickStep::FetchName(app_id),
            },
            None => TickStep::Apply(StateUpdateResult::Success(NOT_PLAYING.to_owned())),
        }
    }

    /// Goes on from the name that the store gave, which is kept, or from what is shown in its
    /// place, which is not.
    pub fn after_fetch(&mut self, app_id: u32, fetched: Result<String, String>) -> (update:
        StateUpdateResult)
        ensures
            update@ == answered(fetched),
            match fetched {
                Ok(given) => final(self)@ == old(self)@.insert(app_id, given@) && (
                update matches StateUpdateResult::Success(name) && name@ == given@),
                Err(message) => final(self)@ == old(self)@ && (
                update matches StateUpdateResult::ErrorWithMsg(shown) && shown@ == message@),
            },
            final(self)@ == lookup::kept(old(self)@, app_id, lookup::name_given(fetched)),
    {
        match fetched {
            Ok(name) => {
                insert_name(&mut self.names, app_id, name.clone());
                StateUpdateResult::Success(name)
            },
            Err(message) => StateUpdateResult::ErrorWithMsg(message),
        }
    }
}

/// What is shown.
#[derive(Debug)]
pub struct Display {
    /// The name, or what is shown in its place.
    pub current_game_name: String,
    /// When the game was first seen, in nanoseconds since the monitor was started. None means that
    /// nothing is being played.
    pub session_start_time: Option<u64>,
}

/// What is shown, as a mathematical value.
pub struct Shown {
    pub name: Seq<char>,
    pub start: Option<u64>,
}

impl View for Display {
    type V = Shown;

    open spec fn view(&self) -> Shown {
        Shown { name: self.current_game_name@, start: self.session_start_time }
    }
}

/// What is shown after an update at `now`. A game that was not shown before starts the clock, the
/// end of a game stops it. A failure means that a game runs all the same: it starts the clock where
/// it stands still, and leaves one that runs as it is.
pub open spec fn updated(shown: Shown, update: Update, now: u64) -> Shown {
    match update {
        Update::Nothing => shown,
        Update::Game(name) => if shown.name == name {
            shown
        } else if name == NOT_PLAYING@ {
            Shown { name, start: None }
        } else {
            Shown { name, start: Some(now) }
        },
        Update::Failure(message) => Shown {
            name: message,
            start: if shown.start is None {
                Some(now)
            } else {
                shown.start
            },
        },
    }
}

/// The markup of what is shown at `now`: nothing while no game runs, else the card.
pub open spec fn markup(shown: Shown, template: Seq<char>, now: u64) -> Seq<char> {
    if shown.name == NOT_PLAYING@ {
        Seq::empty()
    } else {
        card::filled(
            template,
            STATUS_TEXT@,
            shown.name,
            card::shown_play_time(shown.start, now),
        )
    }
}

impl Display {
    /// What is shown before the first look: no game.
    pub fn new() -> (display: Display)
        ensures
            display@ == (Shown { name: NOT_PLAYING@, start: None }),
            display.current_game_name@ == "未在游玩"@ && display.session_start_time is None,
    {
        Display { current_game_name: NOT_PLAYING.to_owned(), session_start_time: None }
    }

    /// Takes in an update at `now`, in nanoseconds since the monitor was started.
    pub fn apply(&mut self, update: StateUpdateResult, now: u64)
        ensures
            final(self)@ == updated(old(self)@, update@, now),
            match update {
                StateUpdateResult::Success(name) => {
                    &&& final(self).current_game_name@ == name@
                    &&& old(self).current_game_name@ == name@ ==> final(self).session_start_time
                        == old(self).session_start_time
                    &&& old(self).current_game_name@ != name@ ==> final(self).session_start_time
                        == (if name@ == "未在游玩"@ {
                        None::<u64>
                    } else {
                        Some(now)
                    })
                },
                StateUpdateResult::ErrorWithMsg(message) => {
                    &&& final(self).current_game_name@ == message@
                    &&& final(self).session_start_time == (if old(self).session_start_time is None {
                        Some(now)
                    } else {
                        old(self).session_start_time
                    })
                },
                StateUpdateResult::Unchanged => final(self).current_game_name@
                    == old(self).current_game_name@ && final(self).session_start_time
                    == old(self).session_start_time,
            },
    {
        match update {
            StateUpdateResult::Success(name) => {
                if !text::same_text(self.current_game_name.as_str(), name.as_str()) {
                    if text::same_text(name.as_str(), NOT_PLAYING) {
                        self.session_start_time = None;
                    } else {
                        self.session_start_time = Some(now);
                    }
                    self.current_game_name = name;
                }
            },
            StateUpdateResult::ErrorWithMsg(message) => {
                if !text::same_text(self.current_game_name.as_str(), message.as_str()) {
                    self.current_game_name = message;
                }
                if self.session_start_time.is_none() {
                    self.session_start_time = Some(now);
                }
            },
            StateUpdateResult::Unchanged => {},
        }
    }

    /// The markup to show at `now`, in nanoseconds since the monitor was started.
    pub fn content(&self, template: &str, now: u64) -> (content: String)
        ensures
            content@ == markup(self@, template@, now),
            self.current_game_name@ == "未在游玩"@ ==> content@.len() == 0,
            self.current_game_name@ != "未在游玩"@ ==> content@ == card::filled(
                template@,
                "正在游玩"@,
                self.current_game_name@,
                match self.session_start_time {
                    Some(start) => crate::playtime::play_time(
                        if start <= now {
                            ((now - start) / 1_000_000_000) as nat
                        } else {
                            0
                        },
                    ),
                    None => "00:00"@,
                },
            ),
    {
        if text::same_text(self.current_game_name.as_str(), NOT_PLAYING) {
            return String::new();
        }
        let play_time = card::play_time_text(self.session_start_time, now);
        card::fill(
            template,
            STATUS_TEXT,
            self.current_game_name.as_str(),
            play_time.as_str(),
        )
    }
}

/// Whether the clock stands still just while no game is shown.
pub open spec fn clock_agrees(shown: Shown) -> bool {
    shown.start is None <==> shown.name == NOT_PLAYING@
}

/// Neither of the texts that stand in for a name is the one for "nothing runs".
pub proof fn lemma_stand_ins_are_not_idle(app_id: u32)
    ensures
        store::unknown_game(app_id) != NOT_PLAYING@,
        store::network_error(app_id) != NOT_PLAYING@,
{
    reveal_strlit("未在游玩");
    reveal_strlit("未知游戏 (");
    reveal_strlit("网络错误 (");
    assert(store::unknown_game(app_id)[1] == "未知游戏 ("@[1]);
    assert(store::network_error(app_id)[1] == "网络错误 ("@[1]);
}

/// A clock that stands still means that no game is shown: every update keeps this.
pub proof fn lemma_no_start_means_idle(shown: Shown, update: Update, now: u64)
    requires
        shown.start is None ==> shown.name == NOT_PLAYING@,
    ensures
        ({
            let after = updated(shown, update, now);
            after.start is None ==> after.name == NOT_PLAYING@
        }),
{
}

/// The clock stands still just while no game is shown: at the start, and after every look at the
/// machine.
pub proof fn lemma_clock_agrees(
    shown: Shown,
    cache: Map<u32, Seq<char>>,
    app_id: Option<u32>,
    answer: Update,
    now: u64,
)
    requires
        clock_agrees(shown),
        app_id matches Some(app_id) ==> is_answer(app_id, answer),
    ensures
        clock_agrees(Shown { name: NOT_PLAYING@, start: None }),
        clock_agrees(updated(shown, looked(cache, app_id, answer), now)),
{
    if let Some(app_id) = app_id {
        lemma_stand_ins_are_not_idle(app_id);
    }
}

/// After a look at the machine the clock stands still just where no application runs. A game
/// that the store itself calls by the text for "nothing runs" cannot be told from none.
pub proof fn lemma_clock_runs_with_application(
    shown: Shown,
    cache: Map<u32, Seq<char>>,
    app_id: Option<u32>,
    answer: Update,
    now: u64,
)
    requires
        clock_agrees(shown),
        app_id matches Some(app_id) ==> is_answer(app_id, answer) && looked(
            cache,
            Some(app_id),
            answer,
        ) != Update::Game(NOT_PLAYING@),
    ensures
        updated(shown, looked(cache, app_id, answer), now).start is None <==> app_id is None,
{
    lemma_clock_agrees(shown, cache, app_id, answer, now);
    if let Some(app_id) = app_id {
        lemma_stand_ins_are_not_idle(app_id);
    }
}

/// A game that goes on running keeps its clock, however often it is seen, and one that takes the
/// place of another starts it anew.
pub proof fn lemma_clock_follows_game(shown: Shown, name: Seq<char>, now: u64, later: u64)
    ensures
        ({
            let first = updated(shown, Update::Game(name), now);
            &&& first.name == name
            &&& updated(first, Update::Game(name), later) == first
            &&& shown.name != name && name != NOT_PLAYING@ ==> first.start == Some(now)
            &&& shown.name != name && name == NOT_PLAYING@ ==> first.start is None
            &&& shown.name == name ==> first.start == shown.start
        }),
{
}

/// A name that the store gave is shown from then on without asking again; after a failure the store
/// is asked again.
pub proof fn lemma_name_asked_once(
    cache: Map<u32, Seq<char>>,
    app_id: u32,
    fetched: Option<Seq<char>>,
)
    requires
        seen(cache, Some(app_id)) is None,
    ensures
        fetched matches Some(name) ==> seen(lookup::kept(cache, app_id, fetched), Some(app_id))
            == Some(Update::Game(name)),
        fetched is None ==> seen(lookup::kept(cache, app_id, fetched), Some(app_id)) is None,
{
}

/// A failure always ends with a start: the one that there was, else the time of the failure.
pub proof fn lemma_failure_has_start(shown: Shown, message: Seq<char>, now: u64)
    ensures
        ({
            let after = updated(shown, Update::Failure(message), now);
            &&& after.name == message
            &&& after.start is Some
            &&& shown.start is Some ==> after.start == shown.start
            &&& shown.start is None ==> after.start == Some(now)
        }),
{
}

/// The value of what is shown is its name and its start, each in full, and the value of an update is
/// its name or its message, each in full.
pub proof fn lemma_display_value(display: Display, name: String, message: String)
    ensures
        display@.name == display.current_game_name@,
        display@.start == display.session_start_time,
        StateUpdateResult::Success(name)@ == Update::Game(name@),
        StateUpdateResult::ErrorWithMsg(message)@ == Update::Failure(message@),
        StateUpdateResult::Unchanged@ == Update::Nothing,
        answered(Ok(name)) == Update::Game(name@),
        answered(Err(message)) == Update::Failure(message@),
{
}

/// An application that runs is shown under the name that is kept for it, in full, or the store is
/// asked; where none runs that is shown, and the store is never asked.
pub proof fn lemma_what_is_seen(cache: Map<u32, Seq<char>>, app_id: u32, answer: Update)
    ensures
        cache.contains_key(app_id) ==> seen(cache, Some(app_id)) == Some(
            Update::Game(cache[app_id]),
        ),
        cache.contains_key(app_id) ==> looked(cache, Some(app_id), answer) == Update::Game(
            cache[app_id],
        ),
        !cache.contains_key(app_id) ==> seen(cache, Some(app_id)) is None,
        !cache.contains_key(app_id) ==> looked(cache, Some(app_id), answer) == answer,
        seen(cache, None) == Some(Update::Game("未在游玩"@)),
        looked(cache, None, answer) == Update::Game("未在游玩"@),
{
}

/// A game that is shown since some time, in whatever place of another, is shown under its whole name
/// with the play time of just that time, and nothing at all is shown while no game runs.
pub proof fn lemma_game_is_shown_with_its_time(
    shown: Shown,
    name: Seq<char>,
    started: u64,
    passed: u64,
    template: Seq<char>,
)
    requires
        shown.name != name,
        name != "未在游玩"@,
        started + passed <= u64::MAX,
    ensures
        markup(
            updated(shown, Update::Game(name), started),
            template,
            (started + passed) as u64,
        ) == card::filled(
            template,
            "正在游玩"@,
            name,
            crate::playtime::play_time((passed / 1_000_000_000) as nat),
        ),
        markup(updated(shown, Update::Game("未在游玩"@), started), template, passed).len() == 0,
{
    card::lemma_shown_play_time_counts_from_start(started, passed);
}

/// Where nothing could be found out, what is shown stays, name and clock.
pub proof fn lemma_nothing_found_nothing_changed(shown: Shown, now: u64)
    ensures
        updated(shown, Update::Nothing, now) == shown,
{
}

} // verus!
