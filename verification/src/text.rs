//! Text as sequences of characters: decimal numbers and replacement of placeholders.
use vstd::prelude::*;
use vstd::string::*;

verus! {

/// What the displays show, and the states hold, while no game is running.
pub const NOT_PLAYING: &'static str = "未在游玩";

/// The decimal digit of `d`, for `d` below ten.
pub open spec fn digit(d: nat) -> char {
    (48 + d) as char
}

/// `n` written in decimal, without leading zeros.
pub open spec fn decimal(n: nat) -> Seq<char>
    decreases n,
{
    if n < 10 {
        seq![digit(n)]
    } else {
        decimal(n / 10).push(digit(n % 10))
    }
}

/// `n` in decimal, with a leading zero where it would have one digit only.
pub open spec fn two_digits(n: nat) -> Seq<char> {
    if n < 10 {
        seq!['0', digit(n)]
    } else {
        decimal(n)
    }
}

/// Whether `c` is one of the ten decimal digits.
pub open spec fn is_digit(c: char) -> bool {
    '0' <= c <= '9'
}

/// The number that a sequence of decimal digits stands for.
pub open spec fn digits_value(digits: Seq<char>) -> nat
    decreases digits.len(),
{
    if digits.len() == 0 {
        0
    } else {
        digits_value(digits.drop_last()) * 10 + (digits.last() as nat - 48) as nat
    }
}

/// `text` without the plus sign that may stand in front.
pub open spec fn unsigned_part(text: Seq<char>) -> Seq<char> {
    if text.len() > 0 && text[0] == '+' {
        text.skip(1)
    } else {
        text
    }
}

/// Whether `text` is made of decimal digits, at least one.
pub open spec fn is_number(text: Seq<char>) -> bool {
    text.len() > 0 && forall|i: int| 0 <= i < text.len() ==> is_digit(#[trigger] text[i])
}

/// The number that `text` holds: one or more decimal digits, behind at most one plus sign, with a
/// value that fits 32 bits.
pub open spec fn parsed_u32(text: Seq<char>) -> Option<u32> {
    let digits = unsigned_part(text);
    if is_number(digits) && digits_value(digits) <= u32::MAX {
        Some(digits_value(digits) as u32)
    } else {
        None
    }
}

/// `text` with every occurrence of `pattern`, found from left to right without overlap, replaced
/// by `with`.
pub open spec fn replaced(text: Seq<char>, pattern: Seq<char>, with: Seq<char>) -> Seq<char>
    decreases text.len(),
{
    if pattern.len() == 0 || text.len() < pattern.len() {
        text
    } else if text.take(pattern.len() as int) == pattern {
        with + replaced(text.skip(pattern.len() as int), pattern, with)
    } else {
        seq![text[0]] + replaced(text.skip(1), pattern, with)
    }
}

/// Whether `pattern` stands in `text` from position `at` on.
pub open spec fn occurs_at(text: Seq<char>, pattern: Seq<char>, at: int) -> bool {
    0 <= at && at + pattern.len() <= text.len() && text.subrange(at, at + pattern.len()) == pattern
}

/// Whether the two texts are the same.
pub fn same_text(a: &str, b: &str) -> (same: bool)
    ensures
        same == (a@ == b@),
{
    a.to_owned() == b.to_owned()
}

fn digit_text(d: u64) -> (text: &'static str)
    requires
        d < 10,
    ensures
        text@ == seq![digit(d as nat)],
{
    proof {
        reveal_strlit("0");
        reveal_strlit("1");
        reveal_strlit("2");
        reveal_strlit("3");
        reveal_strlit("4");
        reveal_strlit("5");
        reveal_strlit("6");
        reveal_strlit("7");
        reveal_strlit("8");
        reveal_strlit("9");
    }
    let text = if d == 0 {
        "0"
    } else if d == 1 {
        "1"
    } else if d == 2 {
        "2"
    } else if d == 3 {
        "3"
    } else if d == 4 {
        "4"
    } else if d == 5 {
        "5"
    } else if d == 6 {
        "6"
    } else if d == 7 {
        "7"
    } else if d == 8 {
        "8"
    } else {
        "9"
    };
    assert(text@ =~= seq![digit(d as nat)]);
    text
}

/// Writes `n` in decimal behind what `out` holds.
pub fn append_decimal(out: &mut String, n: u64)
    ensures
        final(out)@ == old(out)@ + decimal(n as nat),
    decreases n,
{
    if n >= 10 {
        append_decimal(out, n / 10);
    }
    out.append(digit_text(n % 10));
    proof {
        if n >= 10 {
            assert(old(out)@ + decimal((n / 10) as nat) + seq![digit((n % 10) as nat)] =~= old(out)@
                + decimal((n / 10) as nat).push(digit((n % 10) as nat)));
        }
    }
}

/// `n` in decimal.
pub fn decimal_text(n: u64) -> (text: String)
    ensures
        text@ == decimal(n as nat),
{
    let mut text = String::new();
    append_decimal(&mut text, n);
    assert(Seq::<char>::empty() + decimal(n as nat) =~= decimal(n as nat));
    text
}

/// Writes `n` in decimal, with at least two digits, behind what `out` holds.
pub fn append_two_digits(out: &mut String, n: u64)
    ensures
        final(out)@ == old(out)@ + two_digits(n as nat),
{
    if n < 10 {
        out.append(digit_text(0));
        out.append(digit_text(n));
        assert(old(out)@ + seq![digit(0)] + seq![digit(n as nat)] =~= old(out)@ + seq![
            '0',
            digit(n as nat),
        ]);
    } else {
        append_decimal(out, n);
    }
}

/// The characters of `text`, one by one.
pub fn chars_of(text: &str) -> (chars: Vec<char>)
    ensures
        chars@ == text@,
{
    let mut chars: Vec<char> = Vec::new();
    for c in it: text.chars()
        invariant
            it.seq() == text@,
            chars@ == text@.take(it.index() as int),
    {
        chars.push(c);
    }
    assert(text@.take(text@.len() as int) =~= text@);
    chars
}

/// Whether `pattern` stands in `chars` from position `at` on.
fn stands_at(chars: &Vec<char>, pattern: &Vec<char>, at: usize) -> (found: bool)
    requires
        at + pattern@.len() <= chars@.len(),
    ensures
        found == occurs_at(chars@, pattern@, at as int),
{
    let size: usize = chars.len();
    let mut k: usize = 0;
    while k < pattern.len()
        invariant
            k <= pattern@.len(),
            size == chars@.len(),
            at + pattern@.len() <= size,
            forall|j: int| 0 <= j < k ==> chars@[at + j] == pattern@[j],
        decreases pattern@.len() - k,
    {
        if chars[at + k] != pattern[k] {
            assert(chars@.subrange(at as int, at + pattern@.len())[k as int] != pattern@[k as int]);
            return false;
        }
        k += 1;
    }
    assert(chars@.subrange(at as int, at + pattern@.len()) =~= pattern@);
    true
}

/// `text` with every occurrence of `pattern` replaced by `with`, from left to right.
pub fn replace_all(text: &str, pattern: &str, with: &str) -> (result: String)
    requires
        pattern@.len() > 0,
    ensures
        result@ == replaced(text@, pattern@, with@),
{
    let chars = chars_of(text);
    let wanted = chars_of(pattern);
    let mut result = String::new();
    let mut copied: usize = 0;
    let mut i: usize = 0;
    assert(text@.skip(0) =~= text@);
    while wanted.len() <= chars.len() - i
        invariant
            chars@ == text@,
            wanted@ == pattern@,
            pattern@.len() > 0,
            copied <= i <= chars@.len(),
            replaced(text@, pattern@, with@) =~= result@ + text@.subrange(copied as int, i as int)
                + replaced(text@.skip(i as int), pattern@, with@),
        decreases chars@.len() - i,
    {
        let ghost rest = text@.skip(i as int);
        assert(rest.take(pattern@.len() as int) =~= text@.subrange(
            i as int,
            i + pattern@.len(),
        ));
        if stands_at(&chars, &wanted, i) {
            assert(rest.skip(pattern@.len() as int) =~= text@.skip(i + pattern@.len()));
            result.append(text.substring_char(copied, i));
            result.append(with);
            i += wanted.len();
            copied = i;
        } else {
            assert(rest.skip(1) =~= text@.skip(i + 1));
            assert(text@.subrange(copied as int, i + 1) =~= text@.subrange(copied as int, i as int)
                + seq![rest[0]]);
            i += 1;
        }
    }
    assert(text@.subrange(copied as int, i as int) + text@.skip(i as int) =~= text@.subrange(
        copied as int,
        text@.len() as int,
    ));
    result.append(text.substring_char(copied, chars.len()));
    result
}

/// Reads `text` as an unsigned number of 32 bits.
pub fn parse_u32(text: &str) -> (number: Option<u32>)
    ensures
        number == parsed_u32(text@),
{
    let chars = chars_of(text);
    let from: usize = if chars.len() > 0 && chars[0] == '+' {
        1
    } else {
        0
    };
    let ghost digits = unsigned_part(text@);
    assert(digits =~= text@.skip(from as int));
    if chars.len() == from {
        return None;
    }
    let mut value: u64 = 0;
    let mut i: usize = from;
    assert(digits.take(0) =~= Seq::<char>::empty());
    while i < chars.len()
        invariant
            chars@ == text@,
            from <= i <= chars@.len(),
            digits == text@.skip(from as int),
            forall|j: int| 0 <= j < i - from ==> is_digit(#[trigger] digits[j]),
            value == digits_value(digits.take(i - from)),
            value <= u32::MAX,
            digits == unsigned_part(text@),
        decreases chars@.len() - i,
    {
        let c = chars[i];
        assert(digits[i - from] == c);
        if !('0' <= c && c <= '9') {
            return None;
        }
        value = value * 10 + (c as u64 - 48);
        assert(digits.take(i + 1 - from).drop_last() =~= digits.take(i - from));
        if value > 4294967295 {
            proof {
                lemma_digits_value_grows(digits, i + 1 - from);
            }
            return None;
        }
        i += 1;
    }
    assert(digits.take(digits.len() as int) =~= digits);
    Some(value as u32)
}

/// The digits in front stand for at most what all of them stand for.
proof fn lemma_digits_value_grows(digits: Seq<char>, n: int)
    requires
        0 <= n <= digits.len(),
    ensures
        digits_value(digits.take(n)) <= digits_value(digits),
    decreases digits.len(),
{
    if n == digits.len() {
        assert(digits.take(n) =~= digits);
    } else {
        lemma_digits_value_grows(digits.drop_last(), n);
        assert(digits.drop_last().take(n) =~= digits.take(n));
    }
}

/// What `decimal` writes are digits, at least one, that stand for the number written.
pub proof fn lemma_decimal(n: nat)
    ensures
        is_number(decimal(n)),
        digits_value(decimal(n)) == n,
    decreases n,
{
    if n < 10 {
        assert(decimal(n).drop_last() =~= Seq::<char>::empty());
        assert(digits_value(Seq::<char>::empty()) == 0);
        assert(decimal(n).last() == digit(n));
    } else {
        lemma_decimal(n / 10);
        assert(decimal(n).drop_last() =~= decimal(n / 10));
        assert(decimal(n).last() == digit(n % 10));
    }
}

/// A 32-bit number has at most ten digits.
pub proof fn lemma_decimal_short(n: u32)
    ensures
        decimal(n as nat).len() <= 10,
{
    reveal_with_fuel(decimal, 11);
}

/// Two numbers with the same decimal text are the same number.
pub proof fn lemma_decimal_injective(a: nat, b: nat)
    requires
        decimal(a) == decimal(b),
    ensures
        a == b,
{
    lemma_decimal(a);
    lemma_decimal(b);
}

/// Reading the decimal text of a 32-bit number gives the number back.
pub proof fn lemma_parse_decimal(n: u32)
    ensures
        parsed_u32(decimal(n as nat)) == Some(n),
{
    lemma_decimal(n as nat);
    assert(is_digit(decimal(n as nat)[0]));
}

/// A text in which the pattern does not occur is left as it is.
pub proof fn lemma_replaced_absent(text: Seq<char>, pattern: Seq<char>, with: Seq<char>)
    requires
        forall|at: int| !occurs_at(text, pattern, at),
    ensures
        replaced(text, pattern, with) == text,
    decreases text.len(),
{
    if pattern.len() > 0 && text.len() >= pattern.len() {
        assert(!occurs_at(text, pattern, 0));
        assert(text.take(pattern.len() as int) =~= text.subrange(0, pattern.len() as int));
        let rest = text.skip(1);
        assert forall|at: int| !occurs_at(rest, pattern, at) by {
            if occurs_at(rest, pattern, at) {
                assert(rest.subrange(at, at + pattern.len()) =~= text.subrange(
                    at + 1,
                    at + 1 + pattern.len(),
                ));
                assert(occurs_at(text, pattern, at + 1));
            }
        }
        lemma_replaced_absent(rest, pattern, with);
        assert(seq![text[0]] + rest =~= text);
    }
}

/// A placeholder that occurs once gives way to the value, and what stands around it stays.
pub proof fn lemma_replaced_once(
    before: Seq<char>,
    pattern: Seq<char>,
    after: Seq<char>,
    with: Seq<char>,
)
    requires
        pattern.len() > 0,
        forall|at: int|
            occurs_at(before + pattern + after, pattern, at) ==> at == before.len(),
    ensures
        replaced(before + pattern + after, pattern, with) == before + with + after,
    decreases before.len(),
{
    let text = before + pattern + after;
    assert(text.subrange(before.len() as int, (before.len() + pattern.len()) as int) =~= pattern);
    if before.len() == 0 {
        assert(text.take(pattern.len() as int) =~= pattern);
        assert(text.skip(pattern.len() as int) =~= after);
        assert forall|at: int| !occurs_at(after, pattern, at) by {
            if occurs_at(after, pattern, at) {
                assert(after.subrange(at, at + pattern.len()) =~= text.subrange(
                    at + pattern.len(),
                    at + pattern.len() + pattern.len(),
                ));
                assert(occurs_at(text, pattern, at + pattern.len()));
            }
        }
        lemma_replaced_absent(after, pattern, with);
        assert(before + with + after =~= with + after);
    } else {
        assert(text.take(pattern.len() as int) =~= text.subrange(0, pattern.len() as int));
        assert(!occurs_at(text, pattern, 0));
        let rest = before.skip(1);
        assert(text.skip(1) =~= rest + pattern + after);
        assert forall|at: int| occurs_at(rest + pattern + after, pattern, at) implies at
            == rest.len() by {
            assert((rest + pattern + after).subrange(at, at + pattern.len()) =~= text.subrange(
                at + 1,
                at + 1 + pattern.len(),
            ));
            assert(occurs_at(text, pattern, at + 1));
        }
        lemma_replaced_once(rest, pattern, after, with);
        assert(seq![text[0]] + (rest + with + after) =~= before + with + after);
    }
}

/// The decimal text of a number, digit by digit: the last digit is what is left after division by
/// ten, the digits in front are those of the quotient, and there are none in front below ten.
pub proof fn lemma_decimal_by_digits(n: nat)
    ensures
        decimal(n).len() > 0,
        decimal(n).last() as int == 48 + n % 10,
        n < 10 ==> decimal(n).len() == 1,
        n >= 10 ==> decimal(n).drop_last() == decimal(n / 10),
        n > 0 ==> decimal(n)[0] != '0',
    decreases n,
{
    if n >= 10 {
        lemma_decimal_by_digits(n / 10);
        assert(decimal(n).drop_last() =~= decimal(n / 10));
        assert(decimal(n)[0] == decimal(n / 10)[0]);
    }
}

/// A digit behind others makes ten times as much of them and adds its own value.
pub proof fn lemma_digits_value_by_digits(digits: Seq<char>, c: char)
    requires
        '0' <= c <= '9',
    ensures
        digits_value(Seq::empty()) == 0,
        digits_value(digits.push(c)) == 10 * digits_value(digits) + (c as int - 48),
{
    assert(digits.push(c).drop_last() =~= digits);
}

/// With two digits at least: a zero stands in front of a single digit, and nothing else changes.
pub proof fn lemma_two_digits_pads(n: nat)
    ensures
        n < 10 ==> two_digits(n).len() == 2 && two_digits(n)[0] == '0' && two_digits(n)[1] as int
            == 48 + n,
        n >= 10 ==> two_digits(n) == decimal(n),
{
}

/// How a number is read, from one character to the next: nothing and a sign alone are no number, a
/// digit is one, a plus sign in front of a digit changes nothing, a further digit makes ten times
/// as much and adds its value as long as the result fits 32 bits, and any other character makes
/// it no number.
pub proof fn lemma_number_by_digits(front: Seq<char>, c: char)
    ensures
        parsed_u32(Seq::empty()) is None,
        '0' <= c <= '9' ==> parsed_u32(seq![c]) == Some((c as int - 48) as u32),
        !('0' <= c <= '9') ==> parsed_u32(seq![c]) is None,
        parsed_u32(seq!['+', c]) == parsed_u32(seq![c]),
        front.len() > 0 && front != seq!['+'] ==> (match parsed_u32(front) {
            Some(n) => if '0' <= c <= '9' && 10 * n + (c as int - 48) <= u32::MAX {
                parsed_u32(front.push(c)) == Some((10 * n + (c as int - 48)) as u32)
            } else {
                parsed_u32(front.push(c)) is None
            },
            None => parsed_u32(front.push(c)) is None,
        }),
{
    let one = seq![c];
    let nothing = Seq::<char>::empty();
    assert(digits_value(nothing) == 0);
    assert(one.drop_last() =~= nothing);
    assert(one.skip(1) =~= nothing);
    assert(one[0] == c);
    assert(seq!['+', c].skip(1) =~= one);
    assert(is_number(one) <==> is_digit(c));
    if front.len() > 0 && front != seq!['+'] {
        let (short, long) = (unsigned_part(front), unsigned_part(front.push(c)));
        if front[0] == '+' {
            if front.len() == 1 {
                assert(front =~= seq!['+']);
            }
            assert(front.push(c).skip(1) =~= front.skip(1).push(c));
        }
        assert(long =~= short.push(c));
        assert(long.drop_last() =~= short);
        assert(long.last() == c);
        if is_number(long) {
            assert(is_digit(long[long.len() - 1]));
            assert forall|i: int| 0 <= i < short.len() implies is_digit(#[trigger] short[i]) by {
                assert(short[i] == long[i]);
            }
        }
        if is_number(short) && is_digit(c) {
            assert forall|i: int| 0 <= i < long.len() implies is_digit(#[trigger] long[i]) by {
                if i < short.len() {
                    assert(long[i] == short[i]);
                }
            }
        }
    }
}

/// A pattern stands at a position just where the text from there on begins with it.
pub proof fn lemma_occurs_at(text: Seq<char>, pattern: Seq<char>, at: int)
    ensures
        occurs_at(text, pattern, at) <==> 0 <= at <= text.len() && pattern.is_prefix_of(
            text.skip(at),
        ),
{
    if 0 <= at && at + pattern.len() <= text.len() {
        assert(text.skip(at).subrange(0, pattern.len() as int) =~= text.subrange(
            at,
            at + pattern.len(),
        ));
    }
}

/// The first occurrence of a pattern gives way to the value, what stands before it stays, and what
/// stands behind it is gone through in the same way.
pub proof fn lemma_first_occurrence_replaced(
    before: Seq<char>,
    pattern: Seq<char>,
    behind: Seq<char>,
    with: Seq<char>,
)
    requires
        pattern.len() > 0,
        forall|at: int|
            0 <= at < before.len() ==> !pattern.is_prefix_of(
                #[trigger] (before + pattern + behind).skip(at),
            ),
    ensures
        replaced(before + pattern + behind, pattern, with) == before + with + replaced(
            behind,
            pattern,
            with,
        ),
    decreases before.len(),
{
    let text = before + pattern + behind;
    let n = pattern.len() as int;
    if before.len() == 0 {
        assert(text.take(n) =~= pattern);
        assert(text.skip(n) =~= behind);
        assert(before + with + replaced(behind, pattern, with) =~= with + replaced(
            behind,
            pattern,
            with,
        ));
    } else {
        assert(text.skip(0) =~= text);
        assert(!pattern.is_prefix_of(text.skip(0)));
        assert(text.take(n) =~= text.subrange(0, n));
        let rest = before.skip(1);
        let shorter = rest + pattern + behind;
        assert(text.skip(1) =~= shorter);
        assert forall|at: int| 0 <= at < rest.len() implies !pattern.is_prefix_of(
            #[trigger] shorter.skip(at),
        ) by {
            assert(shorter.skip(at) =~= text.skip(at + 1));
        }
        lemma_first_occurrence_replaced(rest, pattern, behind, with);
        assert(seq![text[0]] + (rest + with + replaced(behind, pattern, with)) =~= before + with
            + replaced(behind, pattern, with));
    }
}

/// A text that begins with the pattern nowhere, from no position on, stays as it is.
pub proof fn lemma_nothing_replaced(text: Seq<char>, pattern: Seq<char>, with: Seq<char>)
    requires
        forall|at: int| 0 <= at < text.len() ==> !pattern.is_prefix_of(#[trigger] text.skip(at)),
    ensures
        replaced(text, pattern, with) == text,
{
    if pattern.len() > 0 {
        assert forall|at: int| !occurs_at(text, pattern, at) by {
            lemma_occurs_at(text, pattern, at);
        }
        lemma_replaced_absent(text, pattern, with);
    }
}

} // verus!
