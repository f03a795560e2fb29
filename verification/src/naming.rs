//! Numbered names: a counter rendered in decimal, padded with zeros and set between a
//! prefix and an extension.

use crate::text::{
    chars_of, decimal, push_all, push_str, render_decimal, repeated, spells, string_of,
};
use vstd::prelude::*;

verus! {

/// On which side of a number the padding zeros go.
#[derive(Debug, Clone, Copy, PartialEq, Eq, Structural)]
pub enum PaddingDirection {
    /// Zeros before the number (00001).
    Left,
    /// Zeros after the number (10000).
    Right,
    /// Zeros on both sides (00100); of an odd count the larger half follows the number.
    Middle,
}

impl Default for PaddingDirection {
    fn default() -> (direction: PaddingDirection)
        ensures
            direction == PaddingDirection::Left,
    {
        PaddingDirection::Left
    }
}

/// `digits` brought to at least `width` characters by zeros on the side that `direction`
/// names. A string that already has `width` characters or more is left as it is.
pub open spec fn padded(digits: Seq<char>, width: nat, direction: PaddingDirection) -> Seq<char> {
    if digits.len() >= width {
        digits
    } else {
        let missing = (width - digits.len()) as nat;
        match direction {
            PaddingDirection::Left => repeated('0', missing) + digits,
            PaddingDirection::Right => digits + repeated('0', missing),
            PaddingDirection::Middle => repeated('0', missing / 2) + digits + repeated(
                '0',
                (missing - missing / 2) as nat,
            ),
        }
    }
}

/// How many zeros the padding puts before a number of `len` characters.
pub open spec fn zeros_before(len: nat, width: nat, direction: PaddingDirection) -> nat {
    if len >= width {
        0
    } else {
        match direction {
            PaddingDirection::Left => (width - len) as nat,
            PaddingDirection::Right => 0,
            PaddingDirection::Middle => ((width - len) / 2) as nat,
        }
    }
}

/// Padding never cuts and never falls short: the padded number has `width` characters,
/// or as many as the number itself where that is more; the number stands in it in
/// full, after the zeros that the direction puts before it; and every other
/// character is a zero.
pub proof fn lemma_padded_shape(digits: Seq<char>, width: nat, direction: PaddingDirection)
    ensures
        padded(digits, width, direction).len() == if digits.len() >= width {
            digits.len()
        } else {
            width
        },
        padded(digits, width, direction).subrange(
            zeros_before(digits.len(), width, direction) as int,
            (zeros_before(digits.len(), width, direction) + digits.len()) as int,
        ) == digits,
        forall|i: int|
            0 <= i < padded(digits, width, direction).len() && !(zeros_before(
                digits.len(),
                width,
                direction,
            ) <= i < zeros_before(digits.len(), width, direction) + digits.len())
                ==> #[trigger] padded(digits, width, direction)[i] == '0',
{
    let out = padded(digits, width, direction);
    let before = zeros_before(digits.len(), width, direction) as int;
    assert(out.subrange(before, before + digits.len()) =~= digits);
}

/// The numbered path: `{folder}/{prefix}_{number}{ext}`, the number padded.
pub open spec fn numbered_path(
    folder: Seq<char>,
    prefix: Seq<char>,
    number: Seq<char>,
    width: nat,
    direction: PaddingDirection,
    ext: Seq<char>,
) -> Seq<char> {
    folder + seq!['/'] + prefix + seq!['_'] + padded(number, width, direction) + ext
}

/// The alignment mark that makes a format field pad on the side `direction` names: a
/// field aligned to the right is padded on its left.
pub open spec fn alignment_mark(direction: PaddingDirection) -> char {
    match direction {
        PaddingDirection::Left => '>',
        PaddingDirection::Right => '<',
        PaddingDirection::Middle => '^',
    }
}

/// The format string of a numbered path. Its field `number` is filled with zeros to
/// `width` characters and aligned by `direction`; the other three fields are copied.
pub open spec fn path_format(direction: PaddingDirection, width: nat) -> Seq<char> {
    "{folder}/{prefix}_{number:0"@ + seq![alignment_mark(direction)] + decimal(width) + "}{ext}"@
}

/// The four named values that `path_format` refers to, in the order of its fields.
pub open spec fn path_fields(
    folder: Seq<char>,
    prefix: Seq<char>,
    number: Seq<char>,
    ext: Seq<char>,
) -> Seq<(Seq<char>, Seq<char>)> {
    seq![("folder"@, folder), ("prefix"@, prefix), ("number"@, number), ("ext"@, ext)]
}

/// Formats with `strfmt::strfmt`: `fields` become the map from names to values that
/// `format` is filled from. `None` stands for any error of `strfmt`.
///
/// The contract speaks of one family of format strings only, those of `path_format`
/// with a width that an `i64` holds, filled from the four fields they name. For them
/// `strfmt` copies `folder`, `/`, `prefix`, `_` and `ext` as they are and writes `number`
/// with zeros around it: it counts the characters of the value and, where they are fewer
/// than the width, adds the missing zeros before the value for `>`, after it for `<`,
/// and for `^` half of them (rounded down) before and the rest after. A value as long as
/// the width or longer is written unchanged.
#[verifier::external_body]
fn format_fields(format: &str, fields: &Vec<(String, String)>) -> (formatted: Option<String>)
    ensures
        forall|
            direction: PaddingDirection,
            width: nat,
            folder: Seq<char>,
            prefix: Seq<char>,
            number: Seq<char>,
            ext: Seq<char>,
        |
            format@ == #[trigger] path_format(direction, width) && width <= i64::MAX
                && fields.deep_view() == #[trigger] path_fields(folder, prefix, number, ext)
                ==> formatted.is_some() && formatted.unwrap()@ == numbered_path(
                folder,
                prefix,
                number,
                width,
                direction,
                ext,
            ),
{
    let vars: std::collections::HashMap<String, String> = fields.iter().cloned().collect();
    strfmt::strfmt(format, &vars).ok()
}

/// The format string of `path_format`.
pub fn path_format_of(direction: PaddingDirection, width: usize) -> (format: String)
    ensures
        format@ == path_format(direction, width as nat),
{
    let mut chars: Vec<char> = Vec::new();
    push_str(&mut chars, "{folder}/{prefix}_{number:0");
    chars.push(
        match direction {
            PaddingDirection::Left => '>',
            PaddingDirection::Right => '<',
            PaddingDirection::Middle => '^',
        },
    );
    let digits = render_decimal(width);
    push_all(&mut chars, &digits);
    push_str(&mut chars, "}{ext}");
    string_of(&chars)
}

/// The path `{folder}/{prefix}_{number}{ext}`, where the number is `counter` in decimal,
/// padded with zeros to `width` characters on the side that `direction` names.
pub fn sequential_path(
    folder: &str,
    prefix: &str,
    counter: usize,
    width: usize,
    direction: PaddingDirection,
    ext: &str,
) -> (path: String)
    requires
        width <= isize::MAX,
    ensures
        path@ == numbered_path(
            folder@,
            prefix@,
            decimal(counter as nat),
            width as nat,
            direction,
            ext@,
        ),
{
    let format = path_format_of(direction, width);
    let digits = render_decimal(counter);
    let number = string_of(&digits);
    let mut fields: Vec<(String, String)> = Vec::new();
    fields.push((String::from_str("folder"), String::from_str(folder)));
    fields.push((String::from_str("prefix"), String::from_str(prefix)));
    fields.push((String::from_str("number"), number));
    fields.push((String::from_str("ext"), String::from_str(ext)));
    assert(fields.deep_view() == path_fields(folder@, prefix@, decimal(counter as nat), ext@));
    assert(format@ == path_format(direction, width as nat));
    let formatted = format_fields(format.as_str(), &fields);
    match formatted {
        Some(path) => path,
        None => unreached(),
    }
}

/// `c` in lower case where it is an ASCII capital, else `c` itself.
pub open spec fn lower(c: char) -> char {
    if 'A' <= c && c <= 'Z' {
        ((c as u8) + 32) as char
    } else {
        c
    }
}

/// `s` with its ASCII capitals in lower case.
pub open spec fn lowered(s: Seq<char>) -> Seq<char> {
    s.map_values(|c: char| lower(c))
}

/// The direction that `word` names, whatever the case of its letters: `left`, `l` or `<`;
/// `right`, `r` or `>`; `middle`, `m` or `|`.
pub open spec fn direction_named(word: Seq<char>) -> Option<PaddingDirection> {
    let w = lowered(word);
    if w == "left"@ || w == "l"@ || w == "<"@ {
        Some(PaddingDirection::Left)
    } else if w == "right"@ || w == "r"@ || w == ">"@ {
        Some(PaddingDirection::Right)
    } else if w == "middle"@ || w == "m"@ || w == "|"@ {
        Some(PaddingDirection::Middle)
    } else {
        None
    }
}

/// The characters of `s` with the ASCII capitals in lower case.
fn lowered_chars(s: &str) -> (out: Vec<char>)
    ensures
        out@ == lowered(s@),
{
    let chars = chars_of(s);
    let mut out: Vec<char> = Vec::new();
    let mut i: usize = 0;
    while i < chars.len()
        invariant
            i <= chars.len(),
            out@ == lowered(chars@.take(i as int)),
        decreases chars.len() - i,
    {
        let c = chars[i];
        let low = if c >= 'A' && c <= 'Z' {
            ((c as u8) + 32) as char
        } else {
            c
        };
        out.push(low);
        assert(chars@.take(i + 1) == chars@.take(i as int).push(c));
        assert(lowered(chars@.take(i + 1)) == lowered(chars@.take(i as int)).push(lower(c)));
        i += 1;
    }
    assert(chars@.take(i as int) == chars@);
    out
}

impl PaddingDirection {
    /// The direction that `word` names, if it names one.
    pub fn parse(word: &str) -> (direction: Option<PaddingDirection>)
        ensures
            direction == direction_named(word@),
    {
        let w = lowered_chars(word);
        if spells(&w, "left") || spells(&w, "l") || spells(&w, "<") {
            Some(PaddingDirection::Left)
        } else if spells(&w, "right") || spells(&w, "r") || spells(&w, ">") {
            Some(PaddingDirection::Right)
        } else if spells(&w, "middle") || spells(&w, "m") || spells(&w, "|") {
            Some(PaddingDirection::Middle)
        } else {
            None
        }
    }

    /// The direction that `a` names. Only for a word that names one.
    pub fn from(a: &String) -> (direction: PaddingDirection)
        requires
            direction_named(a@) is Some,
        ensures
            Some(direction) == direction_named(a@),
    {
        match PaddingDirection::parse(a.as_str()) {
            Some(direction) => direction,
            None => unreached(),
        }
    }
}

} // verus!
