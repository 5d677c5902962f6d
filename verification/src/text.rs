//! Text as the desktop shell exchanges it: menu ids, window labels and event
//! payloads, read and written as sequences of characters.

use vstd::prelude::*;
use vstd::string::*;

verus! {

/// What may be stripped from both ends of a text.
#[derive(Clone, Copy, Debug, PartialEq, Eq, Structural)]
pub enum Margin {
    /// The double quotes that JSON puts around a string.
    Quotes,
    /// White space, as Unicode defines it.
    Blank,
}

/// The characters with the Unicode property `White_Space`.
pub open spec fn is_blank(c: char) -> bool {
    let n = c as u32;
    ||| 0x09 <= n <= 0x0d
    ||| n == 0x20
    ||| n == 0x85
    ||| n == 0xa0
    ||| n == 0x1680
    ||| 0x2000 <= n <= 0x200a
    ||| n == 0x2028
    ||| n == 0x2029
    ||| n == 0x202f
    ||| n == 0x205f
    ||| n == 0x3000
}

impl Margin {
    /// Whether `c` belongs to this margin.
    pub open spec fn holds(self, c: char) -> bool {
        match self {
            Margin::Quotes => c == '"',
            Margin::Blank => is_blank(c),
        }
    }

    /// Tells whether `c` belongs to this margin.
    pub fn strips(self, c: char) -> (r: bool)
        ensures
            r == self.holds(c),
    {
        match self {
            Margin::Quotes => c == '"',
            Margin::Blank => {
                let n: u32 = c as u32;
                (0x09 <= n && n <= 0x0d) || n == 0x20 || n == 0x85 || n == 0xa0 || n == 0x1680 || (
                0x2000 <= n && n <= 0x200a) || n == 0x2028 || n == 0x2029 || n == 0x202f || n
                    == 0x205f || n == 0x3000
            },
        }
    }
}

/// `s` without the leading characters that belong to `margin`.
pub open spec fn trimmed_front(s: Seq<char>, margin: Margin) -> Seq<char>
    decreases s.len(),
{
    if s.len() > 0 && margin.holds(s.first()) {
        trimmed_front(s.drop_first(), margin)
    } else {
        s
    }
}

/// `s` without the trailing characters that belong to `margin`.
pub open spec fn trimmed_back(s: Seq<char>, margin: Margin) -> Seq<char>
    decreases s.len(),
{
    if s.len() > 0 && margin.holds(s.last()) {
        trimmed_back(s.drop_last(), margin)
    } else {
        s
    }
}

/// `s` without the characters of `margin` at its two ends.
pub open spec fn trimmed(s: Seq<char>, margin: Margin) -> Seq<char> {
    trimmed_back(trimmed_front(s, margin), margin)
}

/// Strips the characters of `margin` from both ends of `s`.
pub fn trim(s: &str, margin: Margin) -> (r: &str)
    ensures
        r@ == trimmed(s@, margin),
{
    let len: usize = s.unicode_len();
    let mut from: usize = 0;
    assert(s@.skip(0) =~= s@);
    while from < len && margin.strips(s.get_char(from))
        invariant
            len == s@.len(),
            from <= len,
            trimmed_front(s@, margin) == trimmed_front(s@.skip(from as int), margin),
        decreases len - from,
    {
        assert(s@.skip(from as int).drop_first() =~= s@.skip(from + 1));
        from = from + 1;
    }
    assert(trimmed_front(s@, margin) == s@.skip(from as int));
    let ghost front = s@.skip(from as int);
    let mut to: usize = len;
    assert(s@.subrange(from as int, len as int) =~= front);
    while from < to && margin.strips(s.get_char(to - 1))
        invariant
            len == s@.len(),
            from <= to <= len,
            trimmed_back(front, margin) == trimmed_back(s@.subrange(from as int, to as int), margin),
        decreases to,
    {
        assert(s@.subrange(from as int, to as int).drop_last() =~= s@.subrange(
            from as int,
            to - 1,
        ));
        to = to - 1;
    }
    s.substring_char(from, to)
}

/// Compares two texts character by character.
pub fn same(a: &str, b: &str) -> (r: bool)
    ensures
        r == (a@ == b@),
{
    a.to_owned() == b.to_owned()
}

/// Trimming the front cuts off just the leading characters of the margin.
proof fn lemma_front_cut(s: Seq<char>, margin: Margin) -> (from: int)
    ensures
        0 <= from <= s.len(),
        trimmed_front(s, margin) == s.skip(from),
        forall|i: int| 0 <= i < from ==> margin.holds(#[trigger] s[i]),
        from < s.len() ==> !margin.holds(s[from]),
    decreases s.len(),
{
    if s.len() > 0 && margin.holds(s.first()) {
        let rest = s.drop_first();
        let from = lemma_front_cut(rest, margin);
        assert(rest.skip(from) =~= s.skip(from + 1));
        assert forall|i: int| 0 <= i < from + 1 implies margin.holds(#[trigger] s[i]) by {
            if i > 0 {
                assert(rest[i - 1] == s[i]);
            }
        }
        from + 1
    } else {
        assert(s.skip(0) =~= s);
        0
    }
}

/// Trimming the back cuts off just the trailing characters of the margin.
proof fn lemma_back_cut(s: Seq<char>, margin: Margin) -> (to: int)
    ensures
        0 <= to <= s.len(),
        trimmed_back(s, margin) == s.take(to),
        forall|i: int| to <= i < s.len() ==> margin.holds(#[trigger] s[i]),
        to > 0 ==> !margin.holds(s[to - 1]),
    decreases s.len(),
{
    if s.len() > 0 && margin.holds(s.last()) {
        let rest = s.drop_last();
        let to = lemma_back_cut(rest, margin);
        assert(rest.take(to) =~= s.take(to));
        assert forall|i: int| to <= i < s.len() implies margin.holds(#[trigger] s[i]) by {
            if i < rest.len() {
                assert(rest[i] == s[i]);
            }
        }
        to
    } else {
        assert(s.take(s.len() as int) =~= s);
        s.len() as int
    }
}

/// Trimming keeps a stretch of the text that begins and ends with nothing of the margin,
/// and cuts off nothing but the margin on both sides of it.
pub proof fn law_trim_cuts_the_margin(s: Seq<char>, margin: Margin) -> (kept: (int, int))
    ensures
        0 <= kept.0 <= kept.1 <= s.len(),
        trimmed(s, margin) == s.subrange(kept.0, kept.1),
        forall|i: int| 0 <= i < kept.0 ==> margin.holds(#[trigger] s[i]),
        forall|i: int| kept.1 <= i < s.len() ==> margin.holds(#[trigger] s[i]),
        kept.0 < kept.1 ==> !margin.holds(s[kept.0]) && !margin.holds(s[kept.1 - 1]),
{
    let from = lemma_front_cut(s, margin);
    let front = s.skip(from);
    let to = lemma_back_cut(front, margin);
    assert(front.take(to) =~= s.subrange(from, from + to));
    assert forall|i: int| from + to <= i < s.len() implies margin.holds(#[trigger] s[i]) by {
        assert(front[i - from] == s[i]);
    }
    (from, from + to)
}

/// Quoting a text and stripping the quotes gives the text back, provided that it
/// does not itself begin or end with a quote.
pub proof fn law_quotes_come_off(s: Seq<char>)
    requires
        s.len() > 0 ==> s.first() != '"' && s.last() != '"',
    ensures
        trimmed(seq!['"'] + s + seq!['"'], Margin::Quotes) == s,
{
    let quoted = seq!['"'] + s + seq!['"'];
    assert(quoted.drop_first() =~= s + seq!['"']);
    if s.len() == 0 {
        assert(quoted.drop_first() =~= seq!['"']);
        assert(seq!['"'].drop_first() =~= s);
        reveal_with_fuel(trimmed_front, 3);
        assert(trimmed_front(quoted, Margin::Quotes) =~= s);
    } else {
        reveal_with_fuel(trimmed_front, 2);
        reveal_with_fuel(trimmed_back, 2);
        assert((s + seq!['"']).first() == s.first());
        assert((s + seq!['"']).drop_last() =~= s);
    }
}

/// Whether `c` is one of the ten decimal digits.
pub open spec fn is_digit(c: char) -> bool {
    '0' <= c <= '9'
}

/// The number that a string of decimal digits denotes.
pub open spec fn digits_value(s: Seq<char>) -> nat
    decreases s.len(),
{
    if s.len() == 0 {
        0
    } else {
        digits_value(s.drop_last()) * 10 + (s.last() as nat - '0' as nat) as nat
    }
}

/// `s` without one leading plus sign.
pub open spec fn unsigned_part(s: Seq<char>) -> Seq<char> {
    if s.len() > 0 && s.first() == '+' {
        s.drop_first()
    } else {
        s
    }
}

/// The index that `s` denotes: decimal digits, at least one of them, after an
/// optional plus sign, with a value that fits in a `usize`.
pub open spec fn index_of(s: Seq<char>) -> Option<usize> {
    let digits = unsigned_part(s);
    if digits.len() > 0 && (forall|i: int| 0 <= i < digits.len() ==> is_digit(#[trigger] digits[i]))
        && digits_value(digits) <= usize::MAX {
        Some(digits_value(digits) as usize)
    } else {
        None
    }
}

/// The value of a string of digits is at least that of each of its prefixes.
proof fn lemma_prefix_value(s: Seq<char>, n: int)
    requires
        0 <= n <= s.len(),
        forall|i: int| 0 <= i < s.len() ==> is_digit(#[trigger] s[i]),
    ensures
        digits_value(s.take(n)) <= digits_value(s),
    decreases s.len() - n,
{
    if n < s.len() {
        lemma_prefix_value(s, n + 1);
        assert(s.take(n + 1).drop_last() =~= s.take(n));
    } else {
        assert(s.take(n) =~= s);
    }
}

/// Reads an index written in decimal.
pub fn parse_index(s: &str) -> (r: Option<usize>)
    ensures
        r == index_of(s@),
{
    let len: usize = s.unicode_len();
    let start: usize = if len > 0 && s.get_char(0) == '+' {
        1
    } else {
        0
    };
    let ghost digits = unsigned_part(s@);
    assert(digits =~= s@.skip(start as int));
    if start == len {
        return None;
    }
    let mut value: usize = 0;
    let mut at: usize = start;
    assert(digits.take(0) =~= Seq::<char>::empty());
    while at < len
        invariant
            len == s@.len(),
            start <= at <= len,
            start < len,
            digits == s@.skip(start as int),
            digits == unsigned_part(s@),
            forall|i: int| 0 <= i < at - start ==> is_digit(#[trigger] digits[i]),
            value == digits_value(digits.take(at - start)),
        decreases len - at,
    {
        let c: char = s.get_char(at);
        assert(digits[at - start] == c);
        if !('0' <= c && c <= '9') {
            return None;
        }
        let digit: usize = (c as u32 - '0' as u32) as usize;
        assert(digits.take(at - start + 1).drop_last() =~= digits.take(at - start));
        assert(digits_value(digits.take(at - start + 1)) == value * 10 + digit);
        if value > (usize::MAX - digit) / 10 {
            assert(value * 10 + digit > usize::MAX);
            proof {
                if forall|i: int| 0 <= i < digits.len() ==> is_digit(#[trigger] digits[i]) {
                    lemma_prefix_value(digits, at - start + 1);
                }
            }
            return None;
        }
        value = value * 10 + digit;
        at = at + 1;
    }
    assert(digits.take(len - start) =~= digits);
    Some(value)
}

/// The decimal digit of `n`, for `n` below ten.
pub open spec fn digit_char(n: nat) -> char {
    (n + '0' as nat) as char
}

/// `n` written in decimal, without leading zeros.
pub open spec fn decimal(n: nat) -> Seq<char>
    decreases n,
{
    if n < 10 {
        seq![digit_char(n)]
    } else {
        decimal(n / 10).push(digit_char(n % 10))
    }
}

/// One decimal digit as a text.
fn digit_text(n: usize) -> (r: &'static str)
    requires
        n < 10,
    ensures
        r@ == seq![digit_char(n as nat)],
{
    proof {
        reveal_strlit("0");
        reveal_strlit("1");
        reveal_strlit("2");
        reveal_strlit("3");
        reveal_strlit("4");
        reveal_strlit("5");
        reveal_strlit("6");
        reveal_strlit("7");
        reveal_strlit("8");
        reveal_strlit("9");
    }
    if n == 0 {
        "0"
    } else if n == 1 {
        "1"
    } else if n == 2 {
        "2"
    } else if n == 3 {
        "3"
    } else if n == 4 {
        "4"
    } else if n == 5 {
        "5"
    } else if n == 6 {
        "6"
    } else if n == 7 {
        "7"
    } else if n == 8 {
        "8"
    } else {
        "9"
    }
}

/// Writes `n` in decimal.
pub fn decimal_text(n: usize) -> (r: String)
    ensures
        r@ == decimal(n as nat),
    decreases n,
{
    if n < 10 {
        digit_text(n).to_owned()
    } else {
        let mut r = decimal_text(n / 10);
        r.append(digit_text(n % 10));
        assert(r@ =~= decimal((n / 10) as nat).push(digit_char((n % 10) as nat)));
        r
    }
}

/// A prefix followed by a decimal number.
pub fn numbered(prefix: &str, n: usize) -> (r: String)
    ensures
        r@ == prefix@ + decimal(n as nat),
{
    let mut r = prefix.to_owned();
    r.append(decimal_text(n).as_str());
    r
}

/// A number written in decimal consists of digits that denote it.
pub proof fn law_decimal_denotes(n: nat)
    ensures
        decimal(n).len() > 0,
        forall|i: int| 0 <= i < decimal(n).len() ==> is_digit(#[trigger] decimal(n)[i]),
        digits_value(decimal(n)) == n,
    decreases n,
{
    reveal_with_fuel(digits_value, 2);
    if n < 10 {
        assert(decimal(n).drop_last() =~= Seq::<char>::empty());
    } else {
        law_decimal_denotes(n / 10);
        assert(decimal(n).drop_last() =~= decimal(n / 10));
    }
}

/// Reading what was written gives the number back.
pub proof fn law_index_round_trip(n: usize)
    ensures
        index_of(decimal(n as nat)) == Some(n),
{
    law_decimal_denotes(n as nat);
    assert(is_digit(decimal(n as nat)[0]));
}

/// Different numbers are written differently.
pub proof fn law_decimal_is_injective(a: nat, b: nat)
    requires
        decimal(a) == decimal(b),
    ensures
        a == b,
{
    law_decimal_denotes(a);
    law_decimal_denotes(b);
}

/// What is put on both sides of a text comes off again, as long as it is all of the margin
/// and the text itself neither begins nor ends with any.
pub proof fn law_margin_comes_off(left: Seq<char>, s: Seq<char>, right: Seq<char>, margin: Margin)
    requires
        forall|i: int| 0 <= i < left.len() ==> margin.holds(#[trigger] left[i]),
        forall|i: int| 0 <= i < right.len() ==> margin.holds(#[trigger] right[i]),
        s.len() > 0 ==> !margin.holds(s.first()) && !margin.holds(s.last()),
    ensures
        trimmed(left + s + right, margin) == s,
{
    let all = left + s + right;
    let kept = law_trim_cuts_the_margin(all, margin);
    let from = left.len() as int;
    let to = from + s.len();
    assert forall|i: int| 0 <= i < from implies margin.holds(#[trigger] all[i]) by {
        assert(all[i] == left[i]);
    }
    assert forall|i: int| to <= i < all.len() implies margin.holds(#[trigger] all[i]) by {
        assert(all[i] == right[i - to]);
    }
    if s.len() > 0 {
        assert(all[from] == s.first());
        assert(all[to - 1] == s.last());
        assert(kept.0 == from && kept.1 == to);
    } else {
        assert(kept.0 == kept.1);
    }
    assert(trimmed(all, margin) =~= s);
}

/// The value of the decimal digit `c`.
pub open spec fn digit_of(c: char) -> int {
    c as int - '0' as int
}

/// Reading begins with the first digit. Nothing at all is no index, nor is a plus sign
/// alone; one character is an index if and only if it is a digit, with a plus sign before
/// it or not.
pub proof fn law_one_digit_is_read(c: char)
    ensures
        index_of(Seq::empty()) is None,
        '0' <= c <= '9' ==> index_of(seq![c]) == Some(digit_of(c) as usize),
        '0' <= c <= '9' ==> index_of(seq!['+', c]) == Some(digit_of(c) as usize),
        !('0' <= c <= '9') ==> index_of(seq![c]) is None,
        !('0' <= c <= '9') ==> index_of(seq!['+', c]) is None,
{
    reveal_with_fuel(digits_value, 2);
    assert(seq![c].drop_last() =~= Seq::<char>::empty());
    assert(seq!['+', c].drop_first() =~= seq![c]);
    assert(seq![c].drop_first() =~= Seq::<char>::empty());
    assert(seq![c][0] == c);
    assert(!is_digit('+'));
}

/// Reading goes on digit by digit: one more digit makes the index ten times as large and
/// adds its value, as long as that fits. Anything but a digit ends in no index, and so does
/// everything behind what was none already.
pub proof fn law_digits_are_read_in_turn(s: Seq<char>, c: char)
    requires
        s.len() > 0,
    ensures
        !('0' <= c <= '9') ==> index_of(s.push(c)) is None,
        index_of(s) is None && s != seq!['+'] ==> index_of(s.push(c)) is None,
        index_of(s) is Some && '0' <= c <= '9' ==> {
            let value = index_of(s)->0 * 10 + digit_of(c);
            index_of(s.push(c)) == (if value <= usize::MAX {
                Some(value as usize)
            } else {
                None
            })
        },
{
    let digits = unsigned_part(s);
    let more = unsigned_part(s.push(c));
    assert(more =~= digits.push(c));
    assert(more.drop_last() =~= digits);
    assert(more.last() == c);
    assert(more[digits.len() as int] == c);
    if forall|i: int| 0 <= i < more.len() ==> is_digit(#[trigger] more[i]) {
        assert forall|i: int| 0 <= i < digits.len() implies is_digit(#[trigger] digits[i]) by {
            assert(more[i] == digits[i]);
        }
    }
    if digits.len() == 0 {
        assert(s =~= seq!['+']);
    }
}

/// Numbers are written as they are read: a digit stands for itself, and behind the digits
/// of `n` the digit `d` makes ten times `n` plus `d`.
pub proof fn law_digits_are_written_in_turn(n: nat, d: nat)
    requires
        d < 10,
    ensures
        decimal(d).len() == 1,
        digit_of(decimal(d)[0]) == d,
        n > 0 ==> decimal(10 * n + d) == decimal(n) + decimal(d),
{
    if n > 0 {
        assert((10 * n + d) / 10 == n && (10 * n + d) % 10 == d);
        assert(decimal(10 * n + d) =~= decimal(n) + decimal(d));
    }
}

} // verus!
