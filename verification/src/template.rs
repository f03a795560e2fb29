//! Templates for new names, filled from the capture groups of a match.
//!
//! In a template `$N` and `${N}` stand for the capture group of index `N` (group 0 is the
//! whole match), `$name` and `${name}` for the group of that name, and `$$` for a single
//! `$`. Without braces a reference is the longest run of letters, digits and `_` after
//! the `$`, so `$1a` names the group `1a`; with braces it is all that stands before the
//! next `}`. A group that does not exist or took no part in the match gives nothing. A
//! `$` that begins none of these stands for itself.

use crate::text::{
    chars_of, decimal, is_digit, lemma_decimal_round_trip, lemma_parse_decimal_round_trip,
    parse_usize_chars, parse_usize_spec, push_str, slice_of, spells, string_of,
};
use vstd::prelude::*;

verus! {

/// Whether `c` may stand in a reference written without braces.
pub open spec fn is_word_char(c: char) -> bool {
    ('0' <= c && c <= '9') || ('a' <= c && c <= 'z') || ('A' <= c && c <= 'Z') || c == '_'
}

/// How many word characters `s` starts with.
pub open spec fn word_run(s: Seq<char>) -> nat
    decreases s.len(),
{
    if s.len() == 0 || !is_word_char(s[0]) {
        0
    } else {
        1 + word_run(s.drop_first())
    }
}

/// The index of the first `x` in `s`, or -1 where `s` holds none.
pub open spec fn first_index_of<T>(s: Seq<T>, x: T) -> int
    decreases s.len(),
{
    if s.len() == 0 {
        -1
    } else if s[0] == x {
        0
    } else {
        let rest = first_index_of(s.drop_first(), x);
        if rest < 0 {
            -1
        } else {
            rest + 1
        }
    }
}

/// A reference at the start of a template: the name between the marks, and how many
/// characters the reference takes up, marks included.
pub struct Reference {
    pub name: Seq<char>,
    pub len: nat,
}

/// The reference that `t` begins with, if it begins with one.
pub open spec fn reference_at(t: Seq<char>) -> Option<Reference> {
    if t.len() < 2 || t[0] != '$' {
        None
    } else if t[1] == '{' {
        let close = first_index_of(t.skip(2), '}');
        if close < 0 {
            None
        } else {
            Some(Reference { name: t.subrange(2, 2 + close), len: (close + 3) as nat })
        }
    } else {
        let run = word_run(t.skip(1));
        if run == 0 {
            None
        } else {
            Some(Reference { name: t.subrange(1, 1 + run as int), len: 1 + run })
        }
    }
}

/// What the group of index `index` matched; nothing where there is no such group or it
/// took no part in the match.
pub open spec fn group_text(index: int, groups: Seq<Option<Seq<char>>>) -> Seq<char> {
    if 0 <= index < groups.len() && groups[index] is Some {
        groups[index].unwrap()
    } else {
        Seq::empty()
    }
}

/// What a reference stands for. A name that reads as a decimal number is the index of a
/// group; any other name is looked up among the groups' names.
pub open spec fn reference_text(
    name: Seq<char>,
    groups: Seq<Option<Seq<char>>>,
    names: Seq<Option<Seq<char>>>,
) -> Seq<char> {
    match parse_usize_spec(name) {
        Ok(index) => group_text(index as int, groups),
        Err(_) => group_text(first_index_of(names, Some(name)), groups),
    }
}

/// The template `t` with every reference replaced by what it stands for.
pub open spec fn expand(
    t: Seq<char>,
    groups: Seq<Option<Seq<char>>>,
    names: Seq<Option<Seq<char>>>,
) -> Seq<char>
    decreases t.len(),
{
    if t.len() == 0 {
        Seq::empty()
    } else if t[0] != '$' {
        seq![t[0]] + expand(t.skip(1), groups, names)
    } else if t.len() >= 2 && t[1] == '$' {
        seq!['$'] + expand(t.skip(2), groups, names)
    } else {
        match reference_at(t) {
            Some(reference) => {
                proof {
                    lemma_reference_fits(t);
                }
                reference_text(reference.name, groups, names) + expand(
                    t.skip(reference.len as int),
                    groups,
                    names,
                )
            },
            None => seq!['$'] + expand(t.skip(1), groups, names),
        }
    }
}

/// `first_index_of` finds an occurrence, and nothing before it is one.
pub proof fn lemma_first_index_of<T>(s: Seq<T>, x: T)
    ensures
        -1 <= first_index_of(s, x) < s.len(),
        first_index_of(s, x) >= 0 ==> s[first_index_of(s, x)] == x,
        forall|i: int|
            0 <= i < s.len() && (i < first_index_of(s, x) || first_index_of(s, x) < 0)
                ==> #[trigger] s[i] != x,
    decreases s.len(),
{
    if s.len() > 0 && s[0] != x {
        let rest = s.drop_first();
        lemma_first_index_of(rest, x);
        assert forall|i: int|
            0 <= i < s.len() && (i < first_index_of(s, x) || first_index_of(s, x) < 0)
            implies #[trigger] s[i] != x by {
            if i > 0 {
                assert(rest[i - 1] == s[i]);
            }
        }
    }
}

/// An index is the first occurrence when it is one and none stands before it; there is
/// none when the sequence holds none.
pub proof fn lemma_first_index_is<T>(s: Seq<T>, x: T, at: int)
    requires
        -1 <= at < s.len(),
        at >= 0 ==> s[at] == x,
        forall|i: int| 0 <= i < s.len() && (i < at || at < 0) ==> #[trigger] s[i] != x,
    ensures
        first_index_of(s, x) == at,
{
    lemma_first_index_of(s, x);
}

/// A leading run of word characters has at most the length of the string.
pub proof fn lemma_word_run_bound(s: Seq<char>)
    ensures
        word_run(s) <= s.len(),
    decreases s.len(),
{
    if s.len() > 0 && is_word_char(s[0]) {
        lemma_word_run_bound(s.drop_first());
    }
}

/// The leading run of word characters ends at `i` when the first `i` characters are
/// word characters and the next one, if there is one, is not.
pub proof fn lemma_word_run_is(s: Seq<char>, i: int)
    requires
        0 <= i <= s.len(),
        forall|j: int| 0 <= j < i ==> is_word_char(#[trigger] s[j]),
        i < s.len() ==> !is_word_char(s[i]),
    ensures
        word_run(s) == i,
    decreases i,
{
    if i > 0 {
        let rest = s.drop_first();
        assert forall|j: int| 0 <= j < i - 1 implies is_word_char(#[trigger] rest[j]) by {
            assert(rest[j] == s[j + 1]);
        }
        if i < s.len() {
            assert(rest[i - 1] == s[i]);
        }
        lemma_word_run_is(rest, i - 1);
    }
}

/// A reference lies within the template that begins with it and takes up at least two
/// characters of it.
pub proof fn lemma_reference_fits(t: Seq<char>)
    ensures
        reference_at(t) matches Some(reference) ==> 2 <= reference.len <= t.len(),
{
    if t.len() >= 2 && t[0] == '$' {
        if t[1] == '{' {
            lemma_first_index_of(t.skip(2), '}');
        } else {
            lemma_word_run_bound(t.skip(1));
        }
    }
}

/// A template that holds no `$` stands for itself.
pub proof fn lemma_expand_verbatim(
    t: Seq<char>,
    groups: Seq<Option<Seq<char>>>,
    names: Seq<Option<Seq<char>>>,
)
    requires
        !t.contains('$'),
    ensures
        expand(t, groups, names) == t,
    decreases t.len(),
{
    if t.len() > 0 {
        let rest = t.skip(1);
        assert(t.contains(t[0]));
        assert forall|i: int| 0 <= i < rest.len() implies rest[i] != '$' by {
            assert(t.contains(t[i + 1]));
        }
        lemma_expand_verbatim(rest, groups, names);
        assert(seq![t[0]] + rest == t);
    }
}

/// `$$` stands for a single `$`.
pub proof fn lemma_expand_dollar(
    rest: Seq<char>,
    groups: Seq<Option<Seq<char>>>,
    names: Seq<Option<Seq<char>>>,
)
    ensures
        expand(seq!['$', '$'] + rest, groups, names) == seq!['$'] + expand(rest, groups, names),
{
    let t = seq!['$', '$'] + rest;
    assert(t.skip(2) == rest);
}

/// `${N}` stands for what the group of index `N` matched, whatever follows it.
pub proof fn lemma_expand_braced_index(
    n: nat,
    rest: Seq<char>,
    groups: Seq<Option<Seq<char>>>,
    names: Seq<Option<Seq<char>>>,
)
    requires
        n <= usize::MAX,
    ensures
        expand(seq!['$', '{'] + decimal(n) + seq!['}'] + rest, groups, names) == group_text(
            n as int,
            groups,
        ) + expand(rest, groups, names),
{
    let numeral = decimal(n);
    let t = seq!['$', '{'] + numeral + seq!['}'] + rest;
    let inner = t.skip(2);
    lemma_decimal_round_trip(n);
    lemma_parse_decimal_round_trip(n, usize::MAX as nat);
    assert forall|i: int| 0 <= i < inner.len() && i < numeral.len() implies #[trigger] inner[i]
        != '}' by {
        assert(inner[i] == numeral[i]);
        assert(is_digit(numeral[i]));
    }
    assert(inner[numeral.len() as int] == '}');
    lemma_first_index_is(inner, '}', numeral.len() as int);
    assert(t.subrange(2, 2 + numeral.len() as int) == numeral);
    assert(t.skip(numeral.len() as int + 3) == rest);
}

/// `$N` stands for what the group of index `N` matched, where what follows it is no
/// letter, digit or `_`.
pub proof fn lemma_expand_index(
    n: nat,
    rest: Seq<char>,
    groups: Seq<Option<Seq<char>>>,
    names: Seq<Option<Seq<char>>>,
)
    requires
        n <= usize::MAX,
        rest.len() == 0 || !is_word_char(rest[0]),
    ensures
        expand(seq!['$'] + decimal(n) + rest, groups, names) == group_text(n as int, groups)
            + expand(rest, groups, names),
{
    let numeral = decimal(n);
    let t = seq!['$'] + numeral + rest;
    let inner = t.skip(1);
    lemma_decimal_round_trip(n);
    lemma_parse_decimal_round_trip(n, usize::MAX as nat);
    assert(t[1] == numeral[0]);
    assert(is_digit(numeral[0]));
    assert forall|i: int| 0 <= i < numeral.len() implies is_word_char(#[trigger] inner[i]) by {
        assert(inner[i] == numeral[i]);
        assert(is_digit(numeral[i]));
    }
    if numeral.len() < inner.len() {
        assert(inner[numeral.len() as int] == rest[0]);
    }
    lemma_word_run_is(inner, numeral.len() as int);
    assert(t.subrange(1, 1 + numeral.len() as int) == numeral);
    assert(t.skip(numeral.len() as int + 1) == rest);
}

/// `${name}` stands for what the first group of that name matched, where the name
/// does not read as a number.
pub proof fn lemma_expand_braced_name(
    name: Seq<char>,
    rest: Seq<char>,
    groups: Seq<Option<Seq<char>>>,
    names: Seq<Option<Seq<char>>>,
)
    requires
        !name.contains('}'),
        parse_usize_spec(name) is Err,
    ensures
        expand(seq!['$', '{'] + name + seq!['}'] + rest, groups, names) == group_text(
            first_index_of(names, Some(name)),
            groups,
        ) + expand(rest, groups, names),
{
    let t = seq!['$', '{'] + name + seq!['}'] + rest;
    let inner = t.skip(2);
    assert forall|i: int| 0 <= i < inner.len() && i < name.len() implies #[trigger] inner[i]
        != '}' by {
        assert(inner[i] == name[i]);
        assert(name.contains(name[i]));
    }
    assert(inner[name.len() as int] == '}');
    lemma_first_index_is(inner, '}', name.len() as int);
    assert(t.subrange(2, 2 + name.len() as int) == name);
    assert(t.skip(name.len() as int + 3) == rest);
}

/// Whether `c` may stand in a reference written without braces.
fn word_char(c: char) -> (word: bool)
    ensures
        word == is_word_char(c),
{
    (c >= '0' && c <= '9') || (c >= 'a' && c <= 'z') || (c >= 'A' && c <= 'Z') || c == '_'
}

/// The reference that begins at index `at` of `template`, where a `$` stands: its name
/// and its length.
fn reference_in(template: &Vec<char>, at: usize) -> (found: Option<(Vec<char>, usize)>)
    requires
        at < template.len(),
        template[at as int] == '$',
    ensures
        match found {
            Some((name, len)) => reference_at(template@.skip(at as int)) == Some(
                Reference { name: name@, len: len as nat },
            ) && at + len <= template.len(),
            None => reference_at(template@.skip(at as int)) is None,
        },
{
    let end = template.len();
    let ghost t = template@.skip(at as int);
    if at + 1 >= end {
        return None;
    }
    assert(t[0] == '$' && t[1] == template[at + 1]);
    if template[at + 1] == '{' {
        let ghost inner = t.skip(2);
        let mut close: usize = at + 2;
        while close < end && template[close] != '}'
            invariant
                at + 2 <= close <= end,
                end == template.len(),
                inner == template@.skip(at + 2),
                forall|k: int| 0 <= k < close - (at + 2) ==> #[trigger] inner[k] != '}',
            decreases end - close,
        {
            close += 1;
        }
        assert(inner == template@.skip(at + 2));
        if close == end {
            proof {
                lemma_first_index_is(inner, '}', -1);
            }
            None
        } else {
            proof {
                lemma_first_index_is(inner, '}', close - (at + 2));
                assert(template@.subrange(at + 2, close as int) == t.subrange(
                    2,
                    2 + (close - (at + 2)),
                ));
            }
            let name = slice_of(template, at + 2, close);
            Some((name, close - at + 1))
        }
    } else {
        let ghost inner = t.skip(1);
        let mut stop: usize = at + 1;
        while stop < end && word_char(template[stop])
            invariant
                at + 1 <= stop <= end,
                end == template.len(),
                inner == template@.skip(at + 1),
                forall|k: int| 0 <= k < stop - (at + 1) ==> is_word_char(#[trigger] inner[k]),
            decreases end - stop,
        {
            stop += 1;
        }
        assert(inner == template@.skip(at + 1));
        proof {
            lemma_word_run_is(inner, stop - (at + 1));
            assert(template@.subrange(at + 1, stop as int) == t.subrange(
                1,
                1 + (stop - (at + 1)),
            ));
        }
        if stop == at + 1 {
            None
        } else {
            let name = slice_of(template, at + 1, stop);
            Some((name, stop - at))
        }
    }
}

/// The index of the first group that is named `name`.
fn index_of_name(names: &Vec<Option<String>>, name: &Vec<char>) -> (found: Option<usize>)
    ensures
        match found {
            Some(i) => i < names.len() && first_index_of(names.deep_view(), Some(name@)) == i,
            None => first_index_of(names.deep_view(), Some(name@)) == -1,
        },
{
    let mut i: usize = 0;
    while i < names.len()
        invariant
            i <= names.len(),
            forall|k: int| 0 <= k < i ==> #[trigger] names.deep_view()[k] != Some(name@),
        decreases names.len() - i,
    {
        let same = match &names[i] {
            Some(other) => spells(name, other.as_str()),
            None => false,
        };
        assert(same == (names.deep_view()[i as int] == Some(name@)));
        if same {
            proof {
                lemma_first_index_is(names.deep_view(), Some(name@), i as int);
            }
            return Some(i);
        }
        i += 1;
    }
    proof {
        lemma_first_index_is(names.deep_view(), Some(name@), -1);
    }
    None
}

/// Appends what the group of index `index` matched.
fn push_group(out: &mut Vec<char>, index: usize, groups: &Vec<Option<String>>)
    ensures
        final(out)@ == old(out)@ + group_text(index as int, groups.deep_view()),
{
    if index < groups.len() {
        assert(groups.deep_view()[index as int] == groups[index as int].deep_view());
        match &groups[index] {
            Some(text) => {
                push_str(out, text.as_str());
            },
            None => {},
        }
    }
}

/// Appends what the reference `name` stands for.
fn push_reference(
    out: &mut Vec<char>,
    name: &Vec<char>,
    groups: &Vec<Option<String>>,
    names: &Vec<Option<String>>,
)
    ensures
        final(out)@ == old(out)@ + reference_text(name@, groups.deep_view(), names.deep_view()),
{
    match parse_usize_chars(name) {
        Ok(index) => {
            push_group(out, index, groups);
        },
        Err(_) => {
            match index_of_name(names, name) {
                Some(index) => {
                    push_group(out, index, groups);
                },
                None => {},
            }
        },
    }
}

/// Fills `template` from the groups of one match: `groups` holds what each group
/// matched, `names` the name of each group, both by group index.
pub fn expand_template(
    template: &str,
    groups: &Vec<Option<String>>,
    names: &Vec<Option<String>>,
) -> (name: String)
    ensures
        name@ == expand(template@, groups.deep_view(), names.deep_view()),
{
    let chars = chars_of(template);
    let ghost g = groups.deep_view();
    let ghost n = names.deep_view();
    let mut out: Vec<char> = Vec::new();
    let mut i: usize = 0;
    assert(chars@.skip(0) == chars@);
    while i < chars.len()
        invariant
            i <= chars.len(),
            g == groups.deep_view(),
            n == names.deep_view(),
            out@ + expand(chars@.skip(i as int), g, n) == expand(chars@, g, n),
        decreases chars.len() - i,
    {
        let ghost t = chars@.skip(i as int);
        assert(t[0] == chars[i as int]);
        if chars[i] != '$' {
            out.push(chars[i]);
            assert(t.skip(1) == chars@.skip(i + 1));
            i += 1;
        } else if i + 1 < chars.len() && chars[i + 1] == '$' {
            assert(t[1] == chars[i + 1]);
            out.push('$');
            assert(t.skip(2) == chars@.skip(i + 2));
            i += 2;
        } else {
            if i + 1 < chars.len() {
                assert(t[1] == chars[i + 1]);
            }
            match reference_in(&chars, i) {
                Some((reference, len)) => {
                    proof {
                        lemma_reference_fits(t);
                    }
                    push_reference(&mut out, &reference, groups, names);
                    assert(t.skip(len as int) == chars@.skip(i + len));
                    i += len;
                },
                None => {
                    out.push('$');
                    assert(t.skip(1) == chars@.skip(i + 1));
                    i += 1;
                },
            }
        }
    }
    assert(chars@.skip(i as int).len() == 0);
    string_of(&out)
}

} // verus!
