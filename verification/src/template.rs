//! Templates: what the replacement of a placeholder does to a text, seen field by field.
//!
//! The percent signs of a text part it into fields. A placeholder is a word between two percent
//! signs, so that it stands where a field between two others is that word.
use vstd::prelude::*;

use crate::card;
use crate::text;

verus! {

/// The text with these fields between its percent signs.
pub open spec fn fields_text(fields: Seq<Seq<char>>) -> Seq<char>
    decreases fields.len(),
{
    if fields.len() == 0 {
        Seq::empty()
    } else if fields.len() == 1 {
        fields[0]
    } else {
        fields[0] + seq!['%'] + fields_text(fields.skip(1))
    }
}

/// Whether a text is without percent signs.
pub open spec fn plain(text: Seq<char>) -> bool {
    forall|i: int| 0 <= i < text.len() ==> #[trigger] text[i] != '%'
}

/// Whether all of these texts are without percent signs.
pub open spec fn all_plain(fields: Seq<Seq<char>>) -> bool {
    forall|i: int| 0 <= i < fields.len() ==> plain(#[trigger] fields[i])
}

/// The placeholder with that word.
pub open spec fn placeholder(word: Seq<char>) -> Seq<char> {
    seq!['%'] + word + seq!['%']
}

/// The fields once every placeholder with that word, from left to right, has given way to a value,
/// which joins the fields on both sides.
pub open spec fn fields_filled(
    fields: Seq<Seq<char>>,
    word: Seq<char>,
    value: Seq<char>,
) -> Seq<Seq<char>>
    decreases fields.len(),
{
    if fields.len() <= 1 {
        fields
    } else if fields.len() >= 3 && fields[1] == word {
        let rest = fields_filled(fields.skip(2), word, value);
        seq![fields[0] + value + rest[0]] + rest.skip(1)
    } else {
        seq![fields[0]] + fields_filled(fields.skip(1), word, value)
    }
}

/// In a text without percent signs no placeholder begins.
proof fn lemma_plain_is_kept(
    front: Seq<char>,
    rest: Seq<char>,
    pattern: Seq<char>,
    value: Seq<char>,
)
    requires
        plain(front),
        pattern.len() > 0,
        pattern[0] == '%',
    ensures
        text::replaced(front + rest, pattern, value) == front + text::replaced(
            rest,
            pattern,
            value,
        ),
    decreases front.len(),
{
    let whole = front + rest;
    if front.len() == 0 {
        assert(whole =~= rest);
        assert(front + text::replaced(rest, pattern, value) =~= text::replaced(
            rest,
            pattern,
            value,
        ));
    } else if whole.len() < pattern.len() {
        assert(text::replaced(rest, pattern, value) == rest);
    } else {
        assert(whole.take(pattern.len() as int)[0] == front[0]);
        assert(front[0] != '%');
        let shorter = front.skip(1);
        assert(plain(shorter)) by {
            assert forall|i: int| 0 <= i < shorter.len() implies #[trigger] shorter[i] != '%' by {
                assert(shorter[i] == front[i + 1]);
            }
        }
        lemma_plain_is_kept(shorter, rest, pattern, value);
        assert(whole.skip(1) =~= shorter + rest);
        assert(seq![whole[0]] + (shorter + text::replaced(rest, pattern, value)) =~= front
            + text::replaced(rest, pattern, value));
    }
}

/// A field takes its place in front of a text.
proof fn lemma_front_field(fields: Seq<Seq<char>>, front: Seq<char>)
    requires
        fields.len() > 0,
    ensures
        fields_text(seq![front + fields[0]] + fields.skip(1)) == front + fields_text(fields),
{
    let longer = seq![front + fields[0]] + fields.skip(1);
    assert(longer.skip(1) =~= fields.skip(1));
    assert(longer[0] == front + fields[0]);
    if fields.len() > 1 {
        assert(front + fields[0] + seq!['%'] + fields_text(fields.skip(1)) =~= front + (fields[0]
            + seq!['%'] + fields_text(fields.skip(1))));
    }
}

/// Replacing a placeholder in a text is filling it in among its fields.
pub proof fn lemma_placeholder_is_a_field(
    fields: Seq<Seq<char>>,
    word: Seq<char>,
    value: Seq<char>,
)
    requires
        fields.len() > 0,
        all_plain(fields),
        plain(word),
    ensures
        fields_filled(fields, word, value).len() > 0,
        text::replaced(fields_text(fields), placeholder(word), value) == fields_text(
            fields_filled(fields, word, value),
        ),
    decreases fields.len(),
{
    let pattern = placeholder(word);
    let first = fields[0];
    assert(plain(first));
    if fields.len() == 1 {
        lemma_plain_is_kept(first, Seq::empty(), pattern, value);
        assert(first + Seq::<char>::empty() =~= first);
    } else {
        let tail = fields.skip(1);
        assert(all_plain(tail)) by {
            assert forall|i: int| 0 <= i < tail.len() implies plain(#[trigger] tail[i]) by {
                assert(tail[i] == fields[i + 1]);
            }
        }
        let marked = seq!['%'] + fields_text(tail);
        assert(fields_text(fields) =~= first + marked);
        lemma_plain_is_kept(first, marked, pattern, value);
        let second = fields[1];
        assert(tail[0] == second);
        assert(plain(second));
        if fields.len() >= 3 && second == word {
            let after = fields.skip(2);
            assert(tail.skip(1) =~= after);
            assert(all_plain(after)) by {
                assert forall|i: int| 0 <= i < after.len() implies plain(#[trigger] after[i]) by {
                    assert(after[i] == fields[i + 2]);
                }
            }
            assert(marked =~= pattern + fields_text(after));
            assert(marked.take(pattern.len() as int) =~= pattern);
            assert(marked.skip(pattern.len() as int) =~= fields_text(after));
            lemma_placeholder_is_a_field(after, word, value);
            let rest = fields_filled(after, word, value);
            lemma_front_field(rest, first + value);
            assert(first + (value + fields_text(rest)) =~= first + value + fields_text(rest));
        } else {
            assert(marked.len() >= pattern.len() ==> marked.take(pattern.len() as int) != pattern)
                by {
                if marked.len() >= pattern.len() && marked.take(pattern.len() as int) == pattern {
                    let n = word.len() as int;
                    let behind = fields_text(tail);
                    assert forall|i: int| 0 <= i < n implies behind[i] == word[i] by {
                        assert(marked.take(pattern.len() as int)[i + 1] == pattern[i + 1]);
                    }
                    assert(marked.take(pattern.len() as int)[n + 1] == pattern[n + 1]);
                    assert(behind[n] == '%');
                    if fields.len() == 2 {
                        assert(behind == second);
                    } else {
                        assert(behind[second.len() as int] == '%');
                        assert(forall|i: int| 0 <= i < second.len() ==> behind[i] == second[i]);
                        if n < second.len() {
                            assert(second[n] == '%');
                        } else if n > second.len() {
                            assert(word[second.len() as int] == '%');
                        }
                        assert(second =~= word);
                    }
                }
            }
            lemma_placeholder_is_a_field(tail, word, value);
            let rest = fields_filled(tail, word, value);
            assert(marked.skip(1) =~= fields_text(tail));
            assert(text::replaced(marked, pattern, value) =~= seq!['%'] + text::replaced(
                fields_text(tail),
                pattern,
                value,
            ));
            let filled = seq![first] + rest;
            assert(filled.skip(1) =~= rest);
            assert(fields_text(filled) =~= first + (seq!['%'] + fields_text(rest)));
        }
    }
}

/// Where no field between two others is the word, the fields stay.
proof fn lemma_no_field_filled(fields: Seq<Seq<char>>, word: Seq<char>, value: Seq<char>)
    requires
        forall|i: int| 0 < i < fields.len() - 1 ==> #[trigger] fields[i] != word,
    ensures
        fields_filled(fields, word, value) == fields,
    decreases fields.len(),
{
    if fields.len() > 1 {
        let tail = fields.skip(1);
        assert forall|i: int| 0 < i < tail.len() - 1 implies #[trigger] tail[i] != word by {
            assert(tail[i] == fields[i + 1]);
        }
        lemma_no_field_filled(tail, word, value);
        assert(seq![fields[0]] + tail =~= fields);
    }
}

/// Where just one field between two others is the word, the value joins its neighbours.
proof fn lemma_one_field_filled(
    fields: Seq<Seq<char>>,
    k: int,
    word: Seq<char>,
    value: Seq<char>,
)
    requires
        0 < k < fields.len() - 1,
        fields[k] == word,
        forall|i: int| 0 < i < fields.len() - 1 && i != k ==> #[trigger] fields[i] != word,
    ensures
        fields_filled(fields, word, value) == fields.take(k - 1) + seq![
            fields[k - 1] + value + fields[k + 1],
        ] + fields.skip(k + 2),
    decreases fields.len(),
{
    if k == 1 {
        let after = fields.skip(2);
        assert forall|i: int| 0 < i < after.len() - 1 implies #[trigger] after[i] != word by {
            assert(after[i] == fields[i + 2]);
        }
        lemma_no_field_filled(after, word, value);
        assert(after.skip(1) =~= fields.skip(3));
        assert(fields.take(0) + seq![fields[0] + value + fields[2]] + fields.skip(3) =~= seq![
            fields[0] + value + fields[2],
        ] + fields.skip(3));
    } else {
        let tail = fields.skip(1);
        assert forall|i: int| 0 < i < tail.len() - 1 && i != k - 1 implies #[trigger] tail[i]
            != word by {
            assert(tail[i] == fields[i + 1]);
        }
        lemma_one_field_filled(tail, k - 1, word, value);
        assert(seq![fields[0]] + tail.take(k - 2) =~= fields.take(k - 1));
        assert(tail.skip(k + 1) =~= fields.skip(k + 2));
        assert(fields_filled(fields, word, value) =~= fields.take(k - 1) + seq![
            fields[k - 1] + value + fields[k + 1],
        ] + fields.skip(k + 2));
    }
}

/// Whether a text is one of the words that the placeholders of a card are made with.
pub open spec fn is_card_word(text: Seq<char>) -> bool {
    ||| text == "Status"@
    ||| text == "GameName"@
    ||| text == "PlayTime"@
    ||| text == "GameNameColor"@
}

/// The words of a card's placeholders: the placeholders that they make, and that they differ.
pub proof fn lemma_card_words()
    ensures
        placeholder("Status"@) == "%Status%"@,
        placeholder("GameName"@) == "%GameName%"@,
        placeholder("PlayTime"@) == "%PlayTime%"@,
        placeholder("GameNameColor"@) == "%GameNameColor%"@,
        plain("Status"@),
        plain("GameName"@),
        plain("PlayTime"@),
        plain("GameNameColor"@),
        "Status"@ != "GameName"@,
        "Status"@ != "PlayTime"@,
        "Status"@ != "GameNameColor"@,
        "GameName"@ != "PlayTime"@,
        "GameName"@ != "GameNameColor"@,
        "PlayTime"@ != "GameNameColor"@,
{
    reveal_strlit("Status");
    reveal_strlit("GameName");
    reveal_strlit("PlayTime");
    reveal_strlit("GameNameColor");
    reveal_strlit("%Status%");
    reveal_strlit("%GameName%");
    reveal_strlit("%PlayTime%");
    reveal_strlit("%GameNameColor%");
    assert(placeholder("Status"@) =~= "%Status%"@);
    assert(placeholder("GameName"@) =~= "%GameName%"@);
    assert(placeholder("PlayTime"@) =~= "%PlayTime%"@);
    assert(placeholder("GameNameColor"@) =~= "%GameNameColor%"@);
    assert("Status"@.len() == 6 && "GameName"@.len() == 8 && "PlayTime"@.len() == 8
        && "GameNameColor"@.len() == 13);
    assert("GameName"@[0] != "PlayTime"@[0]);
}

/// Whether a character stands in no placeholder of a card: it is neither a percent sign nor a
/// letter of the English alphabet.
pub open spec fn outside(c: char) -> bool {
    c != '%' && !('A' <= c <= 'Z') && !('a' <= c <= 'z')
}

/// Whether all characters of a text could stand in a placeholder of a card.
spec fn all_inside(pattern: Seq<char>) -> bool {
    forall|i: int| 0 <= i < pattern.len() ==> !outside(#[trigger] pattern[i])
}

/// A character that does not stand in the pattern parts the text into two that are replaced in
/// apart.
proof fn lemma_replaced_apart(
    front: Seq<char>,
    c: char,
    back: Seq<char>,
    pattern: Seq<char>,
    value: Seq<char>,
)
    requires
        outside(c),
        all_inside(pattern),
    ensures
        text::replaced(front + seq![c] + back, pattern, value) == text::replaced(
            front,
            pattern,
            value,
        ) + seq![c] + text::replaced(back, pattern, value),
    decreases front.len(),
{
    let whole = front + seq![c] + back;
    let n = pattern.len() as int;
    if n == 0 || whole.len() < n {
    } else if front.len() == 0 {
        assert(whole[0] == c);
        assert(whole.take(n)[0] == c);
        assert(!outside(pattern[0]));
        assert(whole.skip(1) =~= back);
        assert(text::replaced(whole, pattern, value) =~= seq![c] + text::replaced(
            back,
            pattern,
            value,
        ));
    } else if whole.take(n) == pattern {
        if front.len() < n {
            assert(whole.take(n)[front.len() as int] == c);
            assert(!outside(pattern[front.len() as int]));
        }
        assert(front.take(n) =~= whole.take(n));
        assert(whole.skip(n) =~= front.skip(n) + seq![c] + back);
        lemma_replaced_apart(front.skip(n), c, back, pattern, value);
        assert(text::replaced(whole, pattern, value) =~= text::replaced(front, pattern, value)
            + seq![c] + text::replaced(back, pattern, value));
    } else {
        let shorter = front.skip(1);
        lemma_replaced_apart(shorter, c, back, pattern, value);
        assert(whole.skip(1) =~= shorter + seq![c] + back);
        if front.len() >= n {
            assert(front.take(n) =~= whole.take(n));
        } else {
            assert(text::replaced(shorter, pattern, value) == shorter);
            assert(seq![front[0]] + shorter =~= front);
        }
        assert(text::replaced(front, pattern, value) =~= seq![front[0]] + text::replaced(
            shorter,
            pattern,
            value,
        ));
        assert(whole[0] == front[0]);
        assert(text::replaced(whole, pattern, value) =~= text::replaced(front, pattern, value)
            + seq![c] + text::replaced(back, pattern, value));
    }
}

proof fn lemma_card_placeholders_inside()
    ensures
        all_inside("%Status%"@),
        all_inside("%GameName%"@),
        all_inside("%PlayTime%"@),
        all_inside("%GameNameColor%"@),
{
    reveal_strlit("%Status%");
    reveal_strlit("%GameName%");
    reveal_strlit("%PlayTime%");
    reveal_strlit("%GameNameColor%");
}

/// A character that stands in no placeholder parts a template into two that are filled in apart.
pub proof fn lemma_filled_apart(
    front: Seq<char>,
    c: char,
    back: Seq<char>,
    status: Seq<char>,
    game_name: Seq<char>,
    play_time: Seq<char>,
)
    requires
        outside(c),
    ensures
        card::filled(front + seq![c] + back, status, game_name, play_time) == card::filled(
            front,
            status,
            game_name,
            play_time,
        ) + seq![c] + card::filled(back, status, game_name, play_time),
{
    lemma_card_placeholders_inside();
    let (s, n, t) = ("%Status%"@, "%GameName%"@, "%PlayTime%"@);
    lemma_replaced_apart(front, c, back, s, status);
    let (f1, b1) = (text::replaced(front, s, status), text::replaced(back, s, status));
    lemma_replaced_apart(f1, c, b1, n, game_name);
    let (f2, b2) = (text::replaced(f1, n, game_name), text::replaced(b1, n, game_name));
    lemma_replaced_apart(f2, c, b2, t, play_time);
    let (f3, b3) = (text::replaced(f2, t, play_time), text::replaced(b2, t, play_time));
    lemma_replaced_apart(f3, c, b3, "%GameNameColor%"@, card::GAME_NAME_COLOR@);
}

/// A text without percent signs has nothing to fill in.
proof fn lemma_nothing_to_replace(front: Seq<char>, word: Seq<char>, value: Seq<char>)
    requires
        plain(front),
    ensures
        text::replaced(front, placeholder(word), value) == front,
{
    lemma_plain_is_kept(front, Seq::empty(), placeholder(word), value);
    assert(front + Seq::<char>::empty() =~= front);
}

/// A template without percent signs is the card.
proof fn lemma_filled_plain(
    front: Seq<char>,
    status: Seq<char>,
    game_name: Seq<char>,
    play_time: Seq<char>,
)
    requires
        plain(front),
    ensures
        card::filled(front, status, game_name, play_time) == front,
{
    lemma_card_words();
    lemma_nothing_to_replace(front, "Status"@, status);
    lemma_nothing_to_replace(front, "GameName"@, game_name);
    lemma_nothing_to_replace(front, "PlayTime"@, play_time);
    lemma_nothing_to_replace(front, "GameNameColor"@, card::GAME_NAME_COLOR@);
}

/// A placeholder alone gives way to its own value and to no other.
proof fn lemma_single_placeholder(word: Seq<char>, wanted: Seq<char>, value: Seq<char>)
    requires
        plain(word),
        plain(wanted),
    ensures
        text::replaced(placeholder(word), placeholder(wanted), value) == (if word == wanted {
            value
        } else {
            placeholder(word)
        }),
{
    let nothing = Seq::<char>::empty();
    let fields = seq![nothing, word, nothing];
    assert(fields.skip(1) =~= seq![word, nothing]);
    assert(seq![word, nothing].skip(1) =~= seq![nothing]);
    assert(fields_text(seq![nothing]) == nothing);
    assert(fields_text(seq![word, nothing]) =~= word + seq!['%']);
    assert(fields_text(fields) =~= placeholder(word));
    lemma_placeholder_is_a_field(fields, wanted, value);
    if word == wanted {
        lemma_one_field_filled(fields, 1, wanted, value);
        assert(fields_filled(fields, wanted, value) =~= seq![nothing + value + nothing]);
        assert(nothing + value + nothing =~= value);
    } else {
        lemma_no_field_filled(fields, wanted, value);
    }
}

/// Whether no placeholder with that word stands in a text.
pub open spec fn lacks(text: Seq<char>, word: Seq<char>) -> bool {
    forall|at: int| !text::occurs_at(text, placeholder(word), at)
}

/// Whether the value that takes the place of the placeholder with that word stays as it is: it
/// holds no placeholder that is filled in after it.
pub open spec fn stays(
    word: Seq<char>,
    status: Seq<char>,
    game_name: Seq<char>,
    play_time: Seq<char>,
) -> bool {
    if word == "Status"@ {
        lacks(status, "GameName"@) && lacks(status, "PlayTime"@) && lacks(status, "GameNameColor"@)
    } else if word == "GameName"@ {
        lacks(game_name, "PlayTime"@) && lacks(game_name, "GameNameColor"@)
    } else if word == "PlayTime"@ {
        lacks(play_time, "GameNameColor"@)
    } else {
        true
    }
}

/// In a text without percent signs no placeholder stands.
pub proof fn lemma_plain_lacks(text: Seq<char>, word: Seq<char>)
    requires
        plain(text),
    ensures
        lacks(text, word),
{
    let pattern = placeholder(word);
    assert forall|at: int| !text::occurs_at(text, pattern, at) by {
        if text::occurs_at(text, pattern, at) {
            assert(text.subrange(at, at + pattern.len())[0] == pattern[0]);
            assert(text[at] == '%');
        }
    }
}

/// The value that takes the place of the placeholder with that word.
pub open spec fn value_of(
    word: Seq<char>,
    status: Seq<char>,
    game_name: Seq<char>,
    play_time: Seq<char>,
) -> Seq<char> {
    if word == "Status"@ {
        status
    } else if word == "GameName"@ {
        game_name
    } else if word == "PlayTime"@ {
        play_time
    } else {
        card::GAME_NAME_COLOR@
    }
}

/// A template that is one placeholder is filled in with its value.
proof fn lemma_filled_placeholder(
    word: Seq<char>,
    status: Seq<char>,
    game_name: Seq<char>,
    play_time: Seq<char>,
)
    requires
        is_card_word(word),
        stays(word, status, game_name, play_time),
    ensures
        card::filled(placeholder(word), status, game_name, play_time) == value_of(
            word,
            status,
            game_name,
            play_time,
        ),
{
    lemma_card_words();
    let (s, n, t, c) = ("Status"@, "GameName"@, "PlayTime"@, "GameNameColor"@);
    let color = card::GAME_NAME_COLOR@;
    lemma_single_placeholder(word, s, status);
    lemma_single_placeholder(word, n, game_name);
    lemma_single_placeholder(word, t, play_time);
    lemma_single_placeholder(word, c, color);
    if word == s {
        text::lemma_replaced_absent(status, placeholder(n), game_name);
        text::lemma_replaced_absent(status, placeholder(t), play_time);
        text::lemma_replaced_absent(status, placeholder(c), color);
    } else if word == n {
        text::lemma_replaced_absent(game_name, placeholder(t), play_time);
        text::lemma_replaced_absent(game_name, placeholder(c), color);
    } else if word == t {
        text::lemma_replaced_absent(play_time, placeholder(c), color);
    }
}

/// A value shows on the card between what stands on both sides of its placeholder in the template,
/// for all values but those with a placeholder in them that is filled in later. The placeholder,
/// and what is taken along on both sides, are set off by characters that stand in no placeholder.
pub proof fn lemma_value_shows(
    template: Seq<char>,
    at: int,
    head: Seq<char>,
    word: Seq<char>,
    tail: Seq<char>,
    status: Seq<char>,
    game_name: Seq<char>,
    play_time: Seq<char>,
)
    requires
        is_card_word(word),
        plain(head) && head.len() > 0 && outside(head.last()),
        plain(tail) && tail.len() > 0 && outside(tail[0]),
        text::occurs_at(template, head + placeholder(word) + tail, at),
        0 < at && outside(template[at - 1]),
        at + head.len() + placeholder(word).len() + tail.len() < template.len(),
        outside(template[at + head.len() + placeholder(word).len() + tail.len()]),
        stays(word, status, game_name, play_time),
    ensures
        exists|k: int|
            text::occurs_at(
                card::filled(template, status, game_name, play_time),
                head + value_of(word, status, game_name, play_time) + tail,
                k,
            ),
{
    let part = head + placeholder(word) + tail;
    let end = at + part.len();
    let (front, back) = (template.take(at - 1), template.skip(end + 1));
    let (h, t) = (head.drop_last(), tail.skip(1));
    let value = value_of(word, status, game_name, play_time);
    let shown = head + value + tail;
    let rest = part + seq![template[end]] + back;
    assert(template.subrange(at, end) =~= part);
    let joined = front + seq![template[at - 1]] + rest;
    assert forall|i: int| 0 <= i < template.len() implies #[trigger] template[i] == joined[i] by {
        if at <= i < end {
            assert(template[i] == template.subrange(at, end)[i - at]);
        }
    }
    assert(template =~= joined);
    assert(plain(h)) by {
        assert forall|i: int| 0 <= i < h.len() implies #[trigger] h[i] != '%' by {
            assert(h[i] == head[i]);
        }
    }
    assert(plain(t)) by {
        assert forall|i: int| 0 <= i < t.len() implies #[trigger] t[i] != '%' by {
            assert(t[i] == tail[i + 1]);
        }
    }
    let inner = placeholder(word) + seq![tail[0]] + t;
    assert(part =~= h + seq![head.last()] + inner);
    lemma_filled_apart(front, template[at - 1], rest, status, game_name, play_time);
    lemma_filled_apart(part, template[end], back, status, game_name, play_time);
    lemma_filled_apart(h, head.last(), inner, status, game_name, play_time);
    lemma_filled_apart(placeholder(word), tail[0], t, status, game_name, play_time);
    lemma_filled_placeholder(word, status, game_name, play_time);
    lemma_filled_plain(h, status, game_name, play_time);
    lemma_filled_plain(t, status, game_name, play_time);
    assert(h + seq![head.last()] + (value + seq![tail[0]] + t) =~= shown);
    let front_filled = card::filled(front, status, game_name, play_time);
    let card_text = card::filled(template, status, game_name, play_time);
    let k: int = front_filled.len() + 1int;
    assert(card_text.subrange(k, k + shown.len()) =~= shown);
    assert(text::occurs_at(card_text, shown, k));
}

} // verus!
