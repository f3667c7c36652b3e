//! The card that shows a game: a template with placeholders, filled in.
use vstd::prelude::*;
use vstd::string::*;

use crate::playtime;
use crate::text;

verus! {

/// The colour in which a game's name is written.
pub const GAME_NAME_COLOR: &'static str = "#66C0F4";

/// The play time of a session whose start is not known.
pub const NO_PLAY_TIME: &'static str = "00:00";

/// A template with its placeholders filled in, one after the other: the status, the game's name,
/// the play time and the colour of the name.
pub open spec fn filled(
    template: Seq<char>,
    status: Seq<char>,
    game_name: Seq<char>,
    play_time: Seq<char>,
) -> Seq<char> {
    let with_status = text::replaced(template, "%Status%"@, status);
    let with_name = text::replaced(with_status, "%GameName%"@, game_name);
    let with_time = text::replaced(with_name, "%PlayTime%"@, play_time);
    text::replaced(with_time, "%GameNameColor%"@, GAME_NAME_COLOR@)
}

/// The play time shown at `now` of a session with that start, both in nanoseconds.
pub open spec fn shown_play_time(start: Option<u64>, now: u64) -> Seq<char> {
    match start {
        Some(start) => playtime::play_time(playtime::seconds_between(start, now)),
        None => NO_PLAY_TIME@,
    }
}

/// Fills in a template.
pub fn fill(template: &str, status: &str, game_name: &str, play_time: &str) -> (card: String)
    ensures
        card@ == filled(template@, status@, game_name@, play_time@),
        card@ == text::replaced(
            text::replaced(
                text::replaced(
                    text::replaced(template@, "%Status%"@, status@),
                    "%GameName%"@,
                    game_name@,
                ),
                "%PlayTime%"@,
                play_time@,
            ),
            "%GameNameColor%"@,
            "#66C0F4"@,
        ),
{
    proof {
        reveal_strlit("%Status%");
        reveal_strlit("%GameName%");
        reveal_strlit("%PlayTime%");
        reveal_strlit("%GameNameColor%");
    }
    let with_status = text::replace_all(template, "%Status%", status);
    let with_name = text::replace_all(with_status.as_str(), "%GameName%", game_name);
    let with_time = text::replace_all(with_name.as_str(), "%PlayTime%", play_time);
    text::replace_all(with_time.as_str(), "%GameNameColor%", GAME_NAME_COLOR)
}

/// The play time to show at `now` of a session with that start, both in nanoseconds.
pub fn play_time_text(start: Option<u64>, now: u64) -> (text: String)
    ensures
        text@ == shown_play_time(start, now),
        match start {
            Some(start) => text@ == playtime::play_time(
                if start <= now {
                    ((now - start) / 1_000_000_000) as nat
                } else {
                    0
                },
            ),
            None => text@ == "00:00"@,
        },
{
    match start {
        Some(start) => playtime::format_duration(playtime::elapsed(start, now)),
        None => NO_PLAY_TIME.to_owned(),
    }
}

/// A card is its template with the status put in first, then the name, the play time and the
/// colour, each wherever its placeholder stands by then.
pub proof fn lemma_filled_in_turn(
    template: Seq<char>,
    status: Seq<char>,
    game_name: Seq<char>,
    play_time: Seq<char>,
)
    ensures
        filled(template, status, game_name, play_time) == text::replaced(
            text::replaced(
                text::replaced(
                    text::replaced(template, "%Status%"@, status),
                    "%GameName%"@,
                    game_name,
                ),
                "%PlayTime%"@,
                play_time,
            ),
            "%GameNameColor%"@,
            "#66C0F4"@,
        ),
{
}

/// A display that asks some time after the start is shown the whole seconds of that time, and one
/// that asks about a session without a start is shown none.
pub proof fn lemma_shown_play_time_counts_from_start(start: u64, passed: u64)
    requires
        start + passed <= u64::MAX,
    ensures
        shown_play_time(Some(start), (start + passed) as u64) == playtime::play_time(
            (passed / 1_000_000_000) as nat,
        ),
        shown_play_time(None, passed) == "00:00"@,
{
}

} // verus!
