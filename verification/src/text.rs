//! Characters, decimal numerals and conversions between strings and character vectors.

use vstd::prelude::*;

verus! {

/// The characters of `s`, in order.
pub fn chars_of(s: &str) -> (chars: Vec<char>)
    ensures
        chars@ == s@,
{
    let mut chars: Vec<char> = Vec::new();
    for c in it: s.chars()
        invariant
            chars@ == s@.take(it.index() as int),
            it.seq() == s@,
    {
        chars.push(c);
    }
    chars
}

/// Collects characters into a `String` with std's `FromIterator<&char>` for `String`,
/// which is documented to append every character in iteration order.
#[verifier::external_body]
pub(crate) fn string_of(chars: &Vec<char>) -> (s: String)
    ensures
        s@ == chars@,
{
    chars.iter().collect()
}

/// Appends the characters of `tail` to `chars`.
pub fn push_all(chars: &mut Vec<char>, tail: &Vec<char>)
    ensures
        final(chars)@ == old(chars)@ + tail@,
{
    let mut i: usize = 0;
    while i < tail.len()
        invariant
            i <= tail.len(),
            chars@ == old(chars)@ + tail@.take(i as int),
        decreases tail.len() - i,
    {
        chars.push(tail[i]);
        i += 1;
    }
}

/// Appends the characters of `tail` to `chars`.
pub fn push_str(chars: &mut Vec<char>, tail: &str)
    ensures
        final(chars)@ == old(chars)@ + tail@,
{
    let tail_chars = chars_of(tail);
    push_all(chars, &tail_chars);
}

/// The characters of `chars` from index `from` up to, not including, index `to`.
pub fn slice_of(chars: &Vec<char>, from: usize, to: usize) -> (part: Vec<char>)
    requires
        from <= to <= chars.len(),
    ensures
        part@ == chars@.subrange(from as int, to as int),
{
    let mut part: Vec<char> = Vec::new();
    let mut i: usize = from;
    while i < to
        invariant
            from <= i <= to <= chars.len(),
            part@ == chars@.subrange(from as int, i as int),
        decreases to - i,
    {
        part.push(chars[i]);
        i += 1;
    }
    part
}

/// Whether `chars` spells exactly `word`.
pub fn spells(chars: &Vec<char>, word: &str) -> (same: bool)
    ensures
        same == (chars@ == word@),
{
    let other = chars_of(word);
    if chars.len() != other.len() {
        return false;
    }
    let mut i: usize = 0;
    while i < chars.len()
        invariant
            i <= chars.len(),
            chars.len() == other.len(),
            other@ == word@,
            chars@.take(i as int) == other@.take(i as int),
        decreases chars.len() - i,
    {
        if chars[i] != other[i] {
            return false;
        }
        assert(chars@.take(i + 1) == chars@.take(i as int).push(chars@[i as int]));
        assert(other@.take(i + 1) == other@.take(i as int).push(other@[i as int]));
        i += 1;
    }
    assert(chars@ == chars@.take(chars.len() as int));
    assert(other@ == other@.take(other.len() as int));
    true
}

/// `count` copies of `c`.
pub open spec fn repeated(c: char, count: nat) -> Seq<char> {
    Seq::new(count, |i: int| c)
}

/// Whether `c` is one of the ten ASCII digits.
pub open spec fn is_digit(c: char) -> bool {
    '0' <= c && c <= '9'
}

/// The number that the ASCII digit `c` stands for.
pub open spec fn digit_value(c: char) -> nat
    recommends
        is_digit(c),
{
    (c as u32 - '0' as u32) as nat
}

/// The ASCII digit that stands for `d`.
pub open spec fn digit_char(d: nat) -> char
    recommends
        d < 10,
{
    seq!['0', '1', '2', '3', '4', '5', '6', '7', '8', '9'][d as int]
}

/// The decimal numeral of `n`: most significant digit first, no leading zero but for 0 itself.
pub open spec fn decimal(n: nat) -> Seq<char>
    decreases n,
{
    if n < 10 {
        seq![digit_char(n)]
    } else {
        decimal(n / 10).push(digit_char(n % 10))
    }
}

/// The number that a string of ASCII digits denotes in base ten; the empty string denotes 0.
pub open spec fn numeral_value(digits: Seq<char>) -> nat
    decreases digits.len(),
{
    if digits.len() == 0 {
        0
    } else {
        numeral_value(digits.drop_last()) * 10 + digit_value(digits.last())
    }
}

/// How many ASCII digits `s` starts with.
pub open spec fn digit_run(s: Seq<char>) -> nat
    decreases s.len(),
{
    if s.len() == 0 || !is_digit(s[0]) {
        0
    } else {
        1 + digit_run(s.drop_first())
    }
}

/// Why a string is not the decimal numeral of a `usize`.
#[derive(Debug, Clone, Copy, PartialEq, Eq, Structural)]
pub enum NumberError {
    /// The string is empty.
    Empty,
    /// A character other than a digit stands where a digit is due, or no digit follows the sign.
    InvalidDigit,
    /// The digits denote a number above the largest `usize`.
    TooLarge,
}

/// `s` without its leading `+`, if it has one.
pub open spec fn unsigned_part(s: Seq<char>) -> Seq<char> {
    if s.len() > 0 && s[0] == '+' {
        s.drop_first()
    } else {
        s
    }
}

/// What reading `s` as a decimal number no greater than `max` gives.
///
/// An optional `+` is followed by digits only. The digits that `s` starts with are read
/// first: when they alone exceed `max` the number is too large, whatever follows them;
/// otherwise any further character, or the lack of a digit, is an invalid digit.
pub open spec fn parse_decimal(s: Seq<char>, max: nat) -> Result<nat, NumberError> {
    let body = unsigned_part(s);
    let run = body.take(digit_run(body) as int);
    if s.len() == 0 {
        Err(NumberError::Empty)
    } else if numeral_value(run) > max {
        Err(NumberError::TooLarge)
    } else if run.len() == 0 || run.len() < body.len() {
        Err(NumberError::InvalidDigit)
    } else {
        Ok(numeral_value(body))
    }
}

/// The outcome of `parse_decimal` with the number narrowed to `usize`.
pub open spec fn parse_usize_spec(s: Seq<char>) -> Result<usize, NumberError> {
    match parse_decimal(s, usize::MAX as nat) {
        Ok(n) => Ok(n as usize),
        Err(e) => Err(e),
    }
}

/// A leading run of digits has at most the length of the string.
pub proof fn lemma_digit_run_bound(s: Seq<char>)
    ensures
        digit_run(s) <= s.len(),
    decreases s.len(),
{
    if s.len() > 0 && is_digit(s[0]) {
        lemma_digit_run_bound(s.drop_first());
    }
}

/// The leading run of digits ends at `i` when the first `i` characters are digits and
/// the next one, if there is one, is not.
pub proof fn lemma_digit_run_is(s: Seq<char>, i: int)
    requires
        0 <= i <= s.len(),
        forall|j: int| 0 <= j < i ==> is_digit(#[trigger] s[j]),
        i < s.len() ==> !is_digit(s[i]),
    ensures
        digit_run(s) == i,
    decreases i,
{
    if i > 0 {
        let rest = s.drop_first();
        assert forall|j: int| 0 <= j < i - 1 implies is_digit(#[trigger] rest[j]) by {
            assert(rest[j] == s[j + 1]);
        }
        if i < s.len() {
            assert(rest[i - 1] == s[i]);
        }
        lemma_digit_run_is(rest, i - 1);
    }
}

/// Reading more digits never gives a smaller number.
pub proof fn lemma_numeral_value_grows(digits: Seq<char>, i: int, j: int)
    requires
        0 <= i <= j <= digits.len(),
    ensures
        numeral_value(digits.take(i)) <= numeral_value(digits.take(j)),
    decreases j - i,
{
    if i < j {
        lemma_numeral_value_grows(digits, i, j - 1);
        assert(digits.take(j).drop_last() == digits.take(j - 1));
    }
}

/// The decimal numeral of a number holds digits only and denotes that number.
pub proof fn lemma_decimal_round_trip(n: nat)
    ensures
        decimal(n).len() >= 1,
        forall|i: int| 0 <= i < decimal(n).len() ==> is_digit(#[trigger] decimal(n)[i]),
        numeral_value(decimal(n)) == n,
    decreases n,
{
    if n < 10 {
        assert(decimal(n).drop_last() == Seq::<char>::empty());
        assert(numeral_value(decimal(n).drop_last()) == 0);
    } else {
        lemma_decimal_round_trip(n / 10);
        assert(decimal(n).drop_last() == decimal(n / 10));
        assert(decimal(n).last() == digit_char(n % 10));
    }
}

/// The ASCII digit for `d`.
fn digit_of(d: usize) -> (c: char)
    requires
        d < 10,
    ensures
        c == digit_char(d as nat),
{
    if d == 0 {
        '0'
    } else if d == 1 {
        '1'
    } else if d == 2 {
        '2'
    } else if d == 3 {
        '3'
    } else if d == 4 {
        '4'
    } else if d == 5 {
        '5'
    } else if d == 6 {
        '6'
    } else if d == 7 {
        '7'
    } else if d == 8 {
        '8'
    } else {
        '9'
    }
}

/// The decimal numeral of `n`.
pub fn render_decimal(n: usize) -> (digits: Vec<char>)
    ensures
        digits@ == decimal(n as nat),
    decreases n,
{
    if n < 10 {
        let mut digits: Vec<char> = Vec::new();
        digits.push(digit_of(n));
        digits
    } else {
        let mut digits = render_decimal(n / 10);
        digits.push(digit_of(n % 10));
        digits
    }
}

/// Reads a decimal numeral: an optional `+`, then digits only, denoting a number that a
/// `usize` can hold.
pub fn parse_usize(s: &str) -> (r: Result<usize, NumberError>)
    ensures
        r == parse_usize_spec(s@),
{
    let chars = chars_of(s);
    parse_usize_chars(&chars)
}

/// Reads a decimal numeral from characters; see [`parse_usize`].
pub fn parse_usize_chars(chars: &Vec<char>) -> (r: Result<usize, NumberError>)
    ensures
        r == parse_usize_spec(chars@),
{
    if chars.len() == 0 {
        return Err(NumberError::Empty);
    }
    let start: usize = if chars[0] == '+' {
        1
    } else {
        0
    };
    let ghost body = unsigned_part(chars@);
    assert(body == chars@.skip(start as int));
    let mut value: usize = 0;
    let mut i: usize = start;
    while i < chars.len()
        invariant
            start <= i <= chars.len(),
            chars.len() > 0,
            body == unsigned_part(chars@),
            body == chars@.skip(start as int),
            forall|j: int| 0 <= j < i - start ==> is_digit(#[trigger] body[j]),
            value == numeral_value(body.take(i - start)),
        decreases chars.len() - i,
    {
        let c = chars[i];
        let ghost k = i - start;
        assert(body[k] == c);
        proof {
            lemma_digit_run_bound(body);
        }
        if !(c >= '0' && c <= '9') {
            proof {
                lemma_digit_run_is(body, k);
            }
            return Err(NumberError::InvalidDigit);
        }
        let d: usize = (c as u32 - '0' as u32) as usize;
        assert(body.take(k + 1).drop_last() == body.take(k));
        assert(numeral_value(body.take(k + 1)) == value * 10 + d);
        if value > (usize::MAX - d) / 10 {
            proof {
                // The digits read so far already exceed the limit, and so does the whole run.
                lemma_digit_run_prefix(body, k + 1);
                lemma_numeral_value_grows(body, k + 1, digit_run(body) as int);
            }
            return Err(NumberError::TooLarge);
        }
        value = value * 10 + d;
        i += 1;
    }
    proof {
        let k = i - start;
        lemma_digit_run_is(body, k);
        assert(body.take(k) == body);
    }
    if i == start {
        return Err(NumberError::InvalidDigit);
    }
    Ok(value)
}

/// A string that starts with `i` digits has a leading run of at least `i` digits.
pub proof fn lemma_digit_run_prefix(s: Seq<char>, i: int)
    requires
        0 <= i <= s.len(),
        forall|j: int| 0 <= j < i ==> is_digit(#[trigger] s[j]),
    ensures
        digit_run(s) >= i,
    decreases i,
{
    if i > 0 {
        let rest = s.drop_first();
        assert forall|j: int| 0 <= j < i - 1 implies is_digit(#[trigger] rest[j]) by {
            assert(rest[j] == s[j + 1]);
        }
        lemma_digit_run_prefix(rest, i - 1);
    }
}

/// Reading the decimal numeral of a number gives that number back, as long as the
/// number is within the limit.
pub proof fn lemma_parse_decimal_round_trip(n: nat, max: nat)
    requires
        n <= max,
    ensures
        parse_decimal(decimal(n), max) == Ok::<nat, NumberError>(n),
{
    let numeral = decimal(n);
    lemma_decimal_round_trip(n);
    assert(is_digit(numeral[0]));
    assert(unsigned_part(numeral) == numeral);
    lemma_digit_run_is(numeral, numeral.len() as int);
    assert(numeral.take(numeral.len() as int) == numeral);
}

/// Two numbers with the same decimal numeral are the same number.
pub proof fn lemma_decimal_is_injective(m: nat, n: nat)
    requires
        decimal(m) == decimal(n),
    ensures
        m == n,
{
    lemma_decimal_round_trip(m);
    lemma_decimal_round_trip(n);
}

} // verus!
