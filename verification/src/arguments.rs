//! The settings of a run, and how they are made from what a command line gave.

use crate::naming::{direction_named, PaddingDirection};
use crate::pattern::{regex_compiles, Pattern};
use crate::text::{parse_usize, parse_usize_spec, push_str, string_of};
use vstd::prelude::*;

verus! {

/// The settings of one run.
#[derive(Debug)]
pub struct Arguments {
    /// Folder in which to act.
    pub folder: String,
    /// Whether to act on directories instead of files.
    pub directory: bool,
    /// Whether renames that went through are reported too.
    pub verbose: bool,
    /// The number that the first item gets.
    pub origin: usize,
    /// What a numbered name begins with.
    pub prefix: String,
    /// How many characters the number has at least.
    pub padding: usize,
    /// On which side of the number the padding goes.
    pub padding_direction: PaddingDirection,
    /// The pattern that an entry's name has to match.
    pub match_regex: Option<Pattern>,
    /// The template of the new names; with it, names are rewritten, not numbered.
    pub match_rename: Option<String>,
    /// Whether renames are only reported, not made.
    pub dry_run: bool,
}

impl Arguments {
    /// A template needs a pattern to fill it from.
    pub open spec fn well_formed(&self) -> bool {
        self.match_rename is Some ==> self.match_regex is Some
    }
}

impl Default for Arguments {
    fn default() -> (arguments: Arguments)
        ensures
            arguments.folder@.len() == 0,
            !arguments.directory,
            !arguments.verbose,
            arguments.origin == 0,
            arguments.prefix@.len() == 0,
            arguments.padding == 0,
            arguments.padding_direction == PaddingDirection::Left,
            arguments.match_regex is None,
            arguments.match_rename is None,
            !arguments.dry_run,
            arguments.well_formed(),
    {
        Arguments {
            folder: String::new(),
            directory: false,
            verbose: false,
            origin: 0,
            prefix: String::new(),
            padding: 0,
            padding_direction: PaddingDirection::Left,
            match_regex: None,
            match_rename: None,
            dry_run: false,
        }
    }
}

/// What asking a command line for an optional text gave.
#[derive(Debug, Clone, PartialEq, Eq)]
pub enum Lookup {
    /// The command line knows the argument, and it was not given.
    Absent,
    /// The text that was given.
    Found(String),
    /// The command line knows no argument of that name.
    Unknown,
    /// The lookup failed otherwise; the text says how.
    Invalid(String),
}

/// The arguments of a command line, as texts and flags.
#[derive(Debug, Clone, PartialEq, Eq)]
pub struct RawArguments {
    pub folder: Option<String>,
    pub directory: bool,
    pub verbose: bool,
    pub origin: Option<String>,
    pub prefix: Option<String>,
    pub padding: Option<String>,
    pub padding_direction: Lookup,
    pub match_regex: Lookup,
    pub match_rename: Lookup,
    pub dry_run: bool,
}

/// Why a command line gives no settings.
#[derive(Debug, Clone, PartialEq, Eq)]
pub enum ArgumentError {
    /// No folder was given.
    Folder,
    /// The first number is missing or is no decimal numeral of a `usize`.
    Origin,
    /// No prefix was given.
    Prefix,
    /// The padding is missing or is no decimal numeral of a `usize`.
    Padding,
    /// The padding direction could not be looked up or names no direction.
    PaddingDirection,
    /// The pattern could not be looked up.
    Match { detail: String },
    /// The template could not be looked up.
    MatchRename { detail: String },
    /// The text given as pattern is none.
    Pattern { message: String },
    /// A template was given without a pattern.
    RenameWithoutMatch,
}

/// An [`ArgumentError`] without the text that the `regex` crate gave.
pub enum ArgumentErrorView {
    Folder,
    Origin,
    Prefix,
    Padding,
    PaddingDirection,
    Match { detail: Seq<char> },
    MatchRename { detail: Seq<char> },
    Pattern,
    RenameWithoutMatch,
}

impl View for ArgumentError {
    type V = ArgumentErrorView;

    open spec fn view(&self) -> ArgumentErrorView {
        match self {
            ArgumentError::Folder => ArgumentErrorView::Folder,
            ArgumentError::Origin => ArgumentErrorView::Origin,
            ArgumentError::Prefix => ArgumentErrorView::Prefix,
            ArgumentError::Padding => ArgumentErrorView::Padding,
            ArgumentError::PaddingDirection => ArgumentErrorView::PaddingDirection,
            ArgumentError::Match { detail } => ArgumentErrorView::Match { detail: detail@ },
            ArgumentError::MatchRename { detail } => ArgumentErrorView::MatchRename {
                detail: detail@,
            },
            ArgumentError::Pattern { message } => ArgumentErrorView::Pattern,
            ArgumentError::RenameWithoutMatch => ArgumentErrorView::RenameWithoutMatch,
        }
    }
}

/// The text of an [`ArgumentError`]; of a text that is no pattern nothing is said but
/// what the `regex` crate says, which the view does not hold.
pub open spec fn argument_message(error: ArgumentErrorView) -> Option<Seq<char>> {
    match error {
        ArgumentErrorView::Folder => Some("Unable to turn 'folder' argument into path"@),
        ArgumentErrorView::Origin => Some("Unable to turn 'origin' argument into usize"@),
        ArgumentErrorView::Prefix => Some("Unable to find 'prefix' argument or use default"@),
        ArgumentErrorView::Padding => Some("Unable to turn 'padding' argument into usize"@),
        ArgumentErrorView::PaddingDirection => Some("Invalid `--padding-direction argument.`"@),
        ArgumentErrorView::Match { detail } => Some("Invalid `--match` argument: "@ + detail),
        ArgumentErrorView::MatchRename { detail } => Some(
            "Invalid `--match-rename` argument: "@ + detail,
        ),
        ArgumentErrorView::Pattern => None,
        ArgumentErrorView::RenameWithoutMatch => Some(
            "`--match-rename` needs `--match` to be given as well"@,
        ),
    }
}

impl ArgumentError {
    /// The text of the error.
    pub fn message(&self) -> (text: String)
        ensures
            argument_message(self@) matches Some(expected) ==> text@ == expected,
            self matches ArgumentError::Pattern { message } ==> text@ == message@,
    {
        let mut out: Vec<char> = Vec::new();
        match self {
            ArgumentError::Folder => {
                push_str(&mut out, "Unable to turn 'folder' argument into path");
            },
            ArgumentError::Origin => {
                push_str(&mut out, "Unable to turn 'origin' argument into usize");
            },
            ArgumentError::Prefix => {
                push_str(&mut out, "Unable to find 'prefix' argument or use default");
            },
            ArgumentError::Padding => {
                push_str(&mut out, "Unable to turn 'padding' argument into usize");
            },
            ArgumentError::PaddingDirection => {
                push_str(&mut out, "Invalid `--padding-direction argument.`");
            },
            ArgumentError::Match { detail } => {
                push_str(&mut out, "Invalid `--match` argument: ");
                push_str(&mut out, detail.as_str());
            },
            ArgumentError::MatchRename { detail } => {
                push_str(&mut out, "Invalid `--match-rename` argument: ");
                push_str(&mut out, detail.as_str());
            },
            ArgumentError::Pattern { message } => {
                push_str(&mut out, message.as_str());
            },
            ArgumentError::RenameWithoutMatch => {
                push_str(&mut out, "`--match-rename` needs `--match` to be given as well");
            },
        }
        string_of(&out)
    }
}

/// What [`Arguments`] are to the contracts.
pub struct ArgumentsView {
    pub folder: Seq<char>,
    pub directory: bool,
    pub verbose: bool,
    pub origin: usize,
    pub prefix: Seq<char>,
    pub padding: usize,
    pub padding_direction: PaddingDirection,
    pub match_regex: Option<Seq<char>>,
    pub match_rename: Option<Seq<char>>,
    pub dry_run: bool,
}

impl View for Arguments {
    type V = ArgumentsView;

    open spec fn view(&self) -> ArgumentsView {
        ArgumentsView {
            folder: self.folder@,
            directory: self.directory,
            verbose: self.verbose,
            origin: self.origin,
            prefix: self.prefix@,
            padding: self.padding,
            padding_direction: self.padding_direction,
            match_regex: match self.match_regex {
                Some(pattern) => Some(pattern@),
                None => None,
            },
            match_rename: match self.match_rename {
                Some(template) => Some(template@),
                None => None,
            },
            dry_run: self.dry_run,
        }
    }
}

/// The number that an argument's text denotes, if the text is there and denotes one.
pub open spec fn number_given(text: Option<String>) -> Option<usize> {
    match text {
        Some(text) => match parse_usize_spec(text@) {
            Ok(number) => Some(number),
            Err(_) => None,
        },
        None => None,
    }
}

/// The padding direction that a lookup gives: the default where the argument was not
/// given or is not known, else the direction that the text names. `None` where the
/// lookup failed or the text names no direction.
pub open spec fn direction_given(lookup: Lookup) -> Option<PaddingDirection> {
    match lookup {
        Lookup::Absent => Some(PaddingDirection::Left),
        Lookup::Unknown => Some(PaddingDirection::Left),
        Lookup::Found(word) => direction_named(word@),
        Lookup::Invalid(_) => None,
    }
}

/// The text that a lookup gives, `None` where the argument was not given, or the text
/// of the failure.
pub open spec fn text_given(lookup: Lookup) -> Result<Option<Seq<char>>, Seq<char>> {
    match lookup {
        Lookup::Absent => Ok(None),
        Lookup::Found(text) => Ok(Some(text@)),
        Lookup::Unknown => Err(unknown_argument()),
        Lookup::Invalid(detail) => Err(detail@),
    }
}

/// What is said of an argument that the command line does not know.
pub open spec fn unknown_argument() -> Seq<char> {
    "unknown argument"@
}

/// The settings that `raw` gives, or the first thing that is wrong with it, in the
/// order folder, origin, prefix, padding, padding direction, pattern, template.
pub open spec fn settings_of(raw: RawArguments) -> Result<ArgumentsView, ArgumentErrorView> {
    if raw.folder is None {
        Err(ArgumentErrorView::Folder)
    } else if number_given(raw.origin) is None {
        Err(ArgumentErrorView::Origin)
    } else if raw.prefix is None {
        Err(ArgumentErrorView::Prefix)
    } else if number_given(raw.padding) is None {
        Err(ArgumentErrorView::Padding)
    } else if direction_given(raw.padding_direction) is None {
        Err(ArgumentErrorView::PaddingDirection)
    } else if text_given(raw.match_regex) is Err {
        Err(ArgumentErrorView::Match { detail: text_given(raw.match_regex)->Err_0 })
    } else if text_given(raw.match_regex)->Ok_0 is Some && !regex_compiles(
        text_given(raw.match_regex)->Ok_0.unwrap(),
    ) {
        Err(ArgumentErrorView::Pattern)
    } else if text_given(raw.match_rename) is Err {
        Err(ArgumentErrorView::MatchRename { detail: text_given(raw.match_rename)->Err_0 })
    } else if text_given(raw.match_rename)->Ok_0 is Some && text_given(raw.match_regex)->Ok_0
        is None {
        Err(ArgumentErrorView::RenameWithoutMatch)
    } else {
        Ok(
            ArgumentsView {
                folder: raw.folder.unwrap()@,
                directory: raw.directory,
                verbose: raw.verbose,
                origin: number_given(raw.origin).unwrap(),
                prefix: raw.prefix.unwrap()@,
                padding: number_given(raw.padding).unwrap(),
                padding_direction: direction_given(raw.padding_direction).unwrap(),
                match_regex: text_given(raw.match_regex)->Ok_0,
                match_rename: text_given(raw.match_rename)->Ok_0,
                dry_run: raw.dry_run,
            },
        )
    }
}

/// The number that an argument's text denotes.
fn number_of(text: &Option<String>) -> (number: Option<usize>)
    ensures
        number == number_given(*text),
{
    match text {
        Some(text) => match parse_usize(text.as_str()) {
            Ok(number) => Some(number),
            Err(_) => None,
        },
        None => None,
    }
}

/// The text that a lookup gives.
fn text_of(lookup: &Lookup) -> (text: Result<Option<String>, String>)
    ensures
        match text {
            Ok(Some(found)) => text_given(*lookup) == Ok::<Option<Seq<char>>, Seq<char>>(
                Some(found@),
            ),
            Ok(None) => text_given(*lookup) == Ok::<Option<Seq<char>>, Seq<char>>(None),
            Err(detail) => text_given(*lookup) == Err::<Option<Seq<char>>, Seq<char>>(detail@),
        },
{
    match lookup {
        Lookup::Absent => Ok(None),
        Lookup::Found(text) => Ok(Some(text.clone())),
        Lookup::Unknown => Err(String::from_str("unknown argument")),
        Lookup::Invalid(detail) => Err(detail.clone()),
    }
}

impl Arguments {
    /// The settings that a command line gives. They are well formed: a template comes
    /// with a pattern.
    pub fn try_from(raw: &RawArguments) -> (made: Result<Arguments, ArgumentError>)
        ensures
            match made {
                Ok(arguments) => settings_of(*raw) == Ok::<ArgumentsView, ArgumentErrorView>(
                    arguments@,
                ) && arguments.well_formed(),
                Err(error) => settings_of(*raw) == Err::<ArgumentsView, ArgumentErrorView>(
                    error@,
                ),
            },
    {
        let folder = match &raw.folder {
            Some(folder) => folder.clone(),
            None => {
                return Err(ArgumentError::Folder);
            },
        };
        let origin = match number_of(&raw.origin) {
            Some(origin) => origin,
            None => {
                return Err(ArgumentError::Origin);
            },
        };
        let prefix = match &raw.prefix {
            Some(prefix) => prefix.clone(),
            None => {
                return Err(ArgumentError::Prefix);
            },
        };
        let padding = match number_of(&raw.padding) {
            Some(padding) => padding,
            None => {
                return Err(ArgumentError::Padding);
            },
        };
        let padding_direction = match &raw.padding_direction {
            Lookup::Absent => PaddingDirection::Left,
            Lookup::Unknown => PaddingDirection::Left,
            Lookup::Found(word) => match PaddingDirection::parse(word.as_str()) {
                Some(direction) => direction,
                None => {
                    return Err(ArgumentError::PaddingDirection);
                },
            },
            Lookup::Invalid(_) => {
                return Err(ArgumentError::PaddingDirection);
            },
        };
        let match_regex = match text_of(&raw.match_regex) {
            Ok(Some(source)) => match Pattern::new(source.as_str()) {
                Ok(pattern) => Some(pattern),
                Err(error) => {
                    return Err(ArgumentError::Pattern { message: error.message });
                },
            },
            Ok(None) => None,
            Err(detail) => {
                return Err(ArgumentError::Match { detail });
            },
        };
        let match_rename = match text_of(&raw.match_rename) {
            Ok(template) => template,
            Err(detail) => {
                return Err(ArgumentError::MatchRename { detail });
            },
        };
        if match_rename.is_some() && match_regex.is_none() {
            return Err(ArgumentError::RenameWithoutMatch);
        }
        Ok(
            Arguments {
                folder,
                directory: raw.directory,
                verbose: raw.verbose,
                origin,
                prefix,
                padding,
                padding_direction,
                match_regex,
                match_rename,
                dry_run: raw.dry_run,
            },
        )
    }
}

} // verus!
