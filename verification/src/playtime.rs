//! How long a game has been running, and how that is written.
use std::time::Duration;
use vstd::prelude::*;
use vstd::string::*;

use crate::text;

verus! {

/// The length of a duration, in nanoseconds.
pub uninterp spec fn duration_nanos(duration: Duration) -> nat;

/// `std::time::Duration::from_nanos` makes a duration that is as many nanoseconds long as its
/// argument says.
pub assume_specification[ Duration::from_nanos ](nanos: u64) -> (duration: Duration)
    ensures
        duration_nanos(duration) == nanos,
;

/// `std::time::Duration::as_secs` gives the whole seconds that a duration contains; what is left
/// of a second is dropped.
pub assume_specification[ Duration::as_secs ](duration: &Duration) -> (seconds: u64)
    ensures
        seconds == duration_nanos(*duration) / 1_000_000_000,
;

/// Minutes and seconds, with the hours in front from one hour on; each with two digits, the hours
/// with more where they need them.
pub open spec fn play_time(seconds: nat) -> Seq<char> {
    let hours = seconds / 3600;
    let minutes = (seconds % 3600) / 60;
    let tail = text::two_digits(minutes) + seq![':'] + text::two_digits(seconds % 60);
    if hours > 0 {
        text::two_digits(hours) + seq![':'] + tail
    } else {
        tail
    }
}

/// The whole seconds from `start` to `now`, both in nanoseconds; none where `start` lies ahead.
pub open spec fn seconds_between(start: u64, now: u64) -> nat {
    if start <= now {
        ((now - start) / 1_000_000_000) as nat
    } else {
        0
    }
}

/// Writes a number of seconds as a play time.
pub fn format_seconds(seconds: u64) -> (text: String)
    ensures
        text@ == play_time(seconds as nat),
{
    proof {
        reveal_strlit(":");
        assert(":"@ =~= seq![':']);
    }
    let hours = seconds / 3600;
    let minutes = (seconds % 3600) / 60;
    let secs = seconds % 60;
    let mut text = String::new();
    if hours > 0 {
        text::append_two_digits(&mut text, hours);
        text.append(":");
    }
    text::append_two_digits(&mut text, minutes);
    text.append(":");
    text::append_two_digits(&mut text, secs);
    assert(text@ =~= play_time(seconds as nat));
    text
}

/// Writes a duration as a play time.
pub fn format_duration(elapsed: Duration) -> (text: String)
    ensures
        text@ == play_time(duration_nanos(elapsed) / 1_000_000_000),
{
    format_seconds(elapsed.as_secs())
}

/// The time from `start` to `now`, both in nanoseconds; zero where `start` lies ahead.
pub fn elapsed(start: u64, now: u64) -> (duration: Duration)
    ensures
        duration_nanos(duration) == (if start <= now {
            now - start
        } else {
            0
        }),
{
    Duration::from_nanos(now.saturating_sub(start))
}

proof fn lemma_two_digits_short(n: nat)
    requires
        n < 60,
    ensures
        text::two_digits(n).len() == 2,
        text::two_digits(n)[0] == text::digit(n / 10),
        text::two_digits(n)[1] == text::digit(n % 10),
{
    if n >= 10 {
        assert(text::decimal(n / 10) =~= seq![text::digit(n / 10)]);
    }
}

proof fn lemma_two_digits_injective(a: nat, b: nat)
    requires
        text::two_digits(a) == text::two_digits(b),
    ensures
        a == b,
{
    lemma_two_digits_value(a);
    lemma_two_digits_value(b);
}

proof fn lemma_two_digits_value(n: nat)
    ensures
        text::digits_value(text::two_digits(n)) == n,
{
    if n < 10 {
        let d = text::two_digits(n);
        assert(d.drop_last() =~= seq!['0']);
        assert(seq!['0'].drop_last() =~= Seq::<char>::empty());
        assert(text::digits_value(Seq::<char>::empty()) == 0);
        assert(text::digits_value(seq!['0']) == 0);
    } else {
        text::lemma_decimal(n);
    }
}

/// A play time under one hour is five characters long.
pub proof fn lemma_play_time_short(seconds: nat)
    requires
        seconds < 3600,
    ensures
        play_time(seconds).len() == 5,
        play_time(seconds)[2] == ':',
{
    lemma_two_digits_short((seconds % 3600) / 60);
    lemma_two_digits_short(seconds % 60);
}

/// Play times of different lengths in seconds are written differently.
pub proof fn lemma_play_time_injective(a: nat, b: nat)
    requires
        play_time(a) == play_time(b),
    ensures
        a == b,
{
    let (ha, ma, sa) = (a / 3600, (a % 3600) / 60, a % 60);
    let (hb, mb, sb) = (b / 3600, (b % 3600) / 60, b % 60);
    lemma_two_digits_short(ma);
    lemma_two_digits_short(sa);
    lemma_two_digits_short(mb);
    lemma_two_digits_short(sb);
    let (ta, tb) = (
        text::two_digits(ma) + seq![':'] + text::two_digits(sa),
        text::two_digits(mb) + seq![':'] + text::two_digits(sb),
    );
    let n = play_time(a).len();
    assert(play_time(a).subrange(n - 5, n as int) =~= ta);
    assert(play_time(b).subrange(n - 5, n as int) =~= tb);
    assert(ta.take(2) =~= text::two_digits(ma) && tb.take(2) =~= text::two_digits(mb));
    assert(ta.skip(3) =~= text::two_digits(sa) && tb.skip(3) =~= text::two_digits(sb));
    lemma_two_digits_injective(ma, mb);
    lemma_two_digits_injective(sa, sb);
    if ha > 0 {
        assert(hb > 0);
        assert(play_time(a).take(n - 6) =~= text::two_digits(ha));
        assert(play_time(b).take(n - 6) =~= text::two_digits(hb));
        lemma_two_digits_injective(ha, hb);
    }
}

/// A play time is made of digits and colons.
pub proof fn lemma_play_time_characters(seconds: nat)
    ensures
        forall|i: int|
            0 <= i < play_time(seconds).len() ==> text::is_digit(#[trigger] play_time(seconds)[i])
                || play_time(seconds)[i] == ':',
{
    text::lemma_decimal(seconds / 3600);
    text::lemma_decimal((seconds % 3600) / 60);
    text::lemma_decimal(seconds % 60);
}

/// A play time reads back as the seconds that it was made from: the last two characters are the
/// seconds, the two before the last colon the minutes, and what stands before another colon, from
/// one hour on, the hours in decimal, with a zero in front where they have one digit.
pub proof fn lemma_play_time_reads_back(seconds: nat)
    ensures
        ({
            let t = play_time(seconds);
            let n = t.len() as int;
            let secs = (t[n - 2] as int - 48) * 10 + (t[n - 1] as int - 48);
            let minutes = (t[n - 5] as int - 48) * 10 + (t[n - 4] as int - 48);
            &&& n >= 5
            &&& '0' <= t[n - 1] <= '9' && '0' <= t[n - 2] <= '9'
            &&& '0' <= t[n - 4] <= '9' && '0' <= t[n - 5] <= '9'
            &&& t[n - 3] == ':'
            &&& 0 <= secs < 60 && secs == seconds % 60
            &&& 0 <= minutes < 60
            &&& seconds < 3600 ==> n == 5 && minutes * 60 + secs == seconds
            &&& seconds >= 3600 ==> {
                let hours = t.take(n - 6);
                &&& n >= 8
                &&& t[n - 6] == ':'
                &&& forall|i: int| 0 <= i < hours.len() ==> '0' <= #[trigger] hours[i] <= '9'
                &&& text::digits_value(hours) * 3600 + minutes * 60 + secs == seconds
                &&& hours[0] == '0' ==> hours.len() == 2
            }
        }),
{
    let (h, m, s) = (seconds / 3600, (seconds % 3600) / 60, seconds % 60);
    lemma_two_digits_short(m);
    lemma_two_digits_short(s);
    let t = play_time(seconds);
    let n = t.len() as int;
    let tail = text::two_digits(m) + seq![':'] + text::two_digits(s);
    assert(tail.len() == 5);
    assert(t.subrange(n - 5, n) =~= tail);
    assert(t[n - 1] == tail[4] && t[n - 2] == tail[3] && t[n - 3] == tail[2] && t[n - 4] == tail[1]
        && t[n - 5] == tail[0]);
    assert((t[n - 2] as int - 48) * 10 + (t[n - 1] as int - 48) == s);
    assert((t[n - 5] as int - 48) * 10 + (t[n - 4] as int - 48) == m);
    if h > 0 {
        assert(t.take(n - 6) =~= text::two_digits(h));
        lemma_two_digits_value(h);
        text::lemma_decimal(h);
        text::lemma_decimal_by_digits(h);
        if h >= 10 {
            text::lemma_decimal_by_digits(h / 10);
        }
    }
}

/// The whole seconds between two times are those that fit between them, and none where the first
/// lies ahead.
pub proof fn lemma_seconds_between(start: u64, now: u64)
    ensures
        start <= now ==> seconds_between(start, now) * 1_000_000_000 <= now - start < (
        seconds_between(start, now) + 1) * 1_000_000_000,
        now < start ==> seconds_between(start, now) == 0,
{
}

} // verus!
