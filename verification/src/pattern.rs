//! Patterns: regular expressions of the `regex` crate, kept with their source text.

use crate::path::{
    base_name, base_name_of, directory_part, directory_part_of, lemma_with_base_name,
    with_base_name,
};
use crate::template::{expand, expand_template};
use crate::text::{chars_of, push_str, string_of};
use vstd::prelude::*;

verus! {

/// `regex::Regex`, a compiled pattern; nothing is known of what is inside.
#[verifier::external_type_specification]
#[verifier::external_body]
pub struct ExRegex(regex::Regex);

/// `regex::Error`, what compiling a pattern fails with; nothing is known of what is
/// inside.
#[verifier::external_type_specification]
#[verifier::external_body]
pub struct ExRegexError(regex::Error);

/// Whether `regex::Regex::new` accepts `source`.
pub uninterp spec fn regex_compiles(source: Seq<char>) -> bool;

/// Whether the pattern compiled from `source` matches anywhere in `text`: what
/// `regex::Regex::is_match` returns.
pub uninterp spec fn regex_is_match(source: Seq<char>, text: Seq<char>) -> bool;

/// What `regex::Regex::captures` finds for the pattern compiled from `source`: for the
/// first match in `text`, what each capture group matched, by group index, with `None`
/// for a group that took no part in the match; `None` where nothing matches.
pub uninterp spec fn regex_captures(source: Seq<char>, text: Seq<char>) -> Option<
    Seq<Option<Seq<char>>>,
>;

/// The names of the capture groups of the pattern compiled from `source`, by group
/// index, with `None` for a group without a name: what `regex::Regex::capture_names`
/// yields.
pub uninterp spec fn regex_group_names(source: Seq<char>) -> Seq<Option<Seq<char>>>;

/// A compiled pattern. Its view is the text it was compiled from.
///
/// The only way to a `Pattern` is [`Pattern::new`], so `compiled` is always what
/// compiling `source` gave.
#[derive(Debug)]
pub struct Pattern {
    source: String,
    compiled: regex::Regex,
}

impl View for Pattern {
    type V = Seq<char>;

    closed spec fn view(&self) -> Seq<char> {
        self.source@
    }
}

/// Why a text is no pattern.
#[derive(Debug, Clone, PartialEq, Eq)]
pub struct PatternError {
    /// What the `regex` crate says of the text.
    pub message: String,
}

/// Compiles with `regex::Regex::new`. It succeeds exactly on the texts that the crate
/// accepts as patterns, and the pattern that comes back keeps the text it was made from.
#[verifier::external_body]
fn compile(source: &str) -> (compiled: Result<Pattern, regex::Error>)
    ensures
        compiled.is_ok() == regex_compiles(source@),
        compiled matches Ok(pattern) ==> pattern@ == source@,
{
    match regex::Regex::new(source) {
        Ok(compiled) => Ok(Pattern { source: source.to_string(), compiled }),
        Err(error) => Err(error),
    }
}

/// The text of a `regex::Error`, by its `Display`. Nothing is claimed of it.
#[verifier::external_body]
fn error_text(error: &regex::Error) -> (text: String) {
    error.to_string()
}

/// `regex::Regex::is_match`: whether the pattern matches anywhere in `text`.
#[verifier::external_body]
fn is_match(pattern: &Pattern, text: &str) -> (found: bool)
    ensures
        found == regex_is_match(pattern@, text@),
{
    pattern.compiled.is_match(text)
}

/// `regex::Regex::captures`, with each group of the `Captures` copied out as the text it
/// matched. The crate documents that it returns a value exactly when the pattern
/// matches somewhere in the text, which is when `is_match` returns true.
#[verifier::external_body]
fn captures(pattern: &Pattern, text: &str) -> (groups: Option<Vec<Option<String>>>)
    ensures
        groups.deep_view() == regex_captures(pattern@, text@),
        groups.is_some() == regex_is_match(pattern@, text@),
{
    pattern.compiled.captures(text).map(
        |found| found.iter().map(|group| group.map(|part| part.as_str().to_string())).collect(),
    )
}

/// `regex::Regex::capture_names`, with each name copied out.
#[verifier::external_body]
fn group_names(pattern: &Pattern) -> (names: Vec<Option<String>>)
    ensures
        names.deep_view() == regex_group_names(pattern@),
{
    pattern.compiled.capture_names().map(|name| name.map(|text| text.to_string())).collect()
}

/// The name that a base name becomes under a pattern and a template: the template filled
/// from the first match of the pattern in the name. A name that the pattern does not
/// match stays as it is.
pub open spec fn substituted_name(
    pattern: Seq<char>,
    template: Seq<char>,
    name: Seq<char>,
) -> Seq<char> {
    match regex_captures(pattern, name) {
        Some(groups) => expand(template, groups, regex_group_names(pattern)),
        None => name,
    }
}

/// The path that `path` becomes under a pattern and a template: its base name is
/// replaced by `substituted_name` of it, the rest stays.
pub open spec fn substituted_path(
    pattern: Seq<char>,
    template: Seq<char>,
    path: Seq<char>,
) -> Seq<char> {
    with_base_name(path, substituted_name(pattern, template, base_name(path)))
}

/// A rewritten path lies where the path lay, and its base name is the template filled
/// from the first match of the pattern in the old base name: every `$N` and `${N}` of
/// the template is replaced by what group `N` of that match holds. This holds where
/// the new name has no `/` in it; with one, the new path leads into a folder below.
pub proof fn lemma_rewritten_path(
    pattern: Seq<char>,
    template: Seq<char>,
    path: Seq<char>,
    groups: Seq<Option<Seq<char>>>,
)
    requires
        regex_captures(pattern, base_name(path)) == Some(groups),
        !expand(template, groups, regex_group_names(pattern)).contains('/'),
    ensures
        directory_part(substituted_path(pattern, template, path)) == directory_part(path),
        base_name(substituted_path(pattern, template, path)) == expand(
            template,
            groups,
            regex_group_names(pattern),
        ),
{
    lemma_with_base_name(path, expand(template, groups, regex_group_names(pattern)));
}

impl Pattern {
    /// Compiles `source`. It succeeds exactly where the `regex` crate accepts the text.
    pub fn new(source: &str) -> (made: Result<Pattern, PatternError>)
        ensures
            made.is_ok() == regex_compiles(source@),
            made matches Ok(pattern) ==> pattern@ == source@,
    {
        match compile(source) {
            Ok(pattern) => Ok(pattern),
            Err(error) => Err(PatternError { message: error_text(&error) }),
        }
    }

    /// The text that the pattern was compiled from.
    pub fn as_str(&self) -> (source: &str)
        ensures
            source@ == self@,
    {
        self.source.as_str()
    }

    /// Whether the pattern matches anywhere in `text`.
    pub fn is_match(&self, text: &str) -> (found: bool)
        ensures
            found == regex_is_match(self@, text@),
    {
        is_match(self, text)
    }

    /// The new name of the entry called `name`: `template` filled from the first match of
    /// the pattern in `name`, or `name` itself where the pattern does not match.
    pub fn substitute(&self, template: &str, name: &str) -> (renamed: String)
        ensures
            renamed@ == substituted_name(self@, template@, name@),
            regex_is_match(self@, name@) ==> renamed@ == expand(
                template@,
                regex_captures(self@, name@).unwrap(),
                regex_group_names(self@),
            ),
    {
        match captures(self, name) {
            Some(groups) => {
                let names = group_names(self);
                expand_template(template, &groups, &names)
            },
            None => String::from_str(name),
        }
    }

    /// The path that `path` is renamed to: its base name goes through
    /// [`Pattern::substitute`], what stands before the base name stays.
    pub fn substitute_path(&self, template: &str, path: &str) -> (renamed: String)
        ensures
            renamed@ == substituted_path(self@, template@, path@),
    {
        let chars = chars_of(path);
        let name = string_of(&base_name_of(&chars));
        let new_name = self.substitute(template, name.as_str());
        let mut out = directory_part_of(&chars);
        push_str(&mut out, new_name.as_str());
        string_of(&out)
    }
}

} // verus!
