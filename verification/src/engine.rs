//! A run, step by step: from the listing of the folder to the proposed renames, and for
//! every rename the decision whether to make it and the record of how it went.
//!
//! Nothing here touches the file system. The caller looks, renames and says what it
//! found; the functions of this module decide.

use crate::arguments::Arguments;
use crate::entries::{
    chosen, filter_items, filter_items_regex, left_out, lemma_every_entry_accounted, item_views,
    skipped_views, Entry, Skipped,
};
use crate::outcome::{Outcome, OutcomeView};
use crate::plan::{counters_fit, propose, proposed_plan, PlanView, RenamePlan};
use crate::text::{push_str, string_of};
use vstd::prelude::*;

verus! {

/// What the caller found of the folder of a run.
#[derive(Debug, Clone, PartialEq, Eq)]
pub enum Folder {
    /// Nothing exists at the path.
    Missing,
    /// What exists at the path is no directory.
    NotDirectory,
    /// The directory could not be listed; `error` says why.
    Unlistable { error: String },
    /// The listing of the directory, in the order the file system gave it.
    Listed { entries: Vec<Entry> },
}

/// Why a run cannot begin. Nothing was renamed.
#[derive(Debug, Clone, PartialEq, Eq)]
pub enum ConfigurationError {
    Missing { folder: String },
    NotDirectory { folder: String },
    Unlistable { folder: String, error: String },
}

/// What a [`ConfigurationError`] is to the contracts.
pub enum ConfigurationErrorView {
    Missing { folder: Seq<char> },
    NotDirectory { folder: Seq<char> },
    Unlistable { folder: Seq<char>, error: Seq<char> },
}

impl View for ConfigurationError {
    type V = ConfigurationErrorView;

    open spec fn view(&self) -> ConfigurationErrorView {
        match self {
            ConfigurationError::Missing { folder } => ConfigurationErrorView::Missing {
                folder: folder@,
            },
            ConfigurationError::NotDirectory { folder } => ConfigurationErrorView::NotDirectory {
                folder: folder@,
            },
            ConfigurationError::Unlistable { folder, error } => ConfigurationErrorView::Unlistable {
                folder: folder@,
                error: error@,
            },
        }
    }
}

/// The text of a [`ConfigurationError`].
pub open spec fn configuration_message(error: ConfigurationErrorView) -> Seq<char> {
    match error {
        ConfigurationErrorView::Missing { folder } => "Folder `"@ + folder + "` does not exist."@,
        ConfigurationErrorView::NotDirectory { folder } => "`"@ + folder + "` is not a folder."@,
        ConfigurationErrorView::Unlistable { folder, error } => "Unable to read directory "@
            + folder + ": "@ + error,
    }
}

impl ConfigurationError {
    /// The text of the error.
    pub fn message(&self) -> (text: String)
        ensures
            text@ == configuration_message(self@),
    {
        let mut out: Vec<char> = Vec::new();
        match self {
            ConfigurationError::Missing { folder } => {
                push_str(&mut out, "Folder `");
                push_str(&mut out, folder.as_str());
                push_str(&mut out, "` does not exist.");
            },
            ConfigurationError::NotDirectory { folder } => {
                push_str(&mut out, "`");
                push_str(&mut out, folder.as_str());
                push_str(&mut out, "` is not a folder.");
            },
            ConfigurationError::Unlistable { folder, error } => {
                push_str(&mut out, "Unable to read directory ");
                push_str(&mut out, folder.as_str());
                push_str(&mut out, ": ");
                push_str(&mut out, error.as_str());
            },
        }
        string_of(&out)
    }
}

/// What a run proposes once its folder is listed.
#[derive(Debug, Clone, PartialEq, Eq)]
pub struct Planned {
    /// The entries left out, each with its reason, in the order of the listing.
    pub skipped: Vec<Skipped>,
    /// One proposed rename for every chosen item, in the order of the listing.
    pub proposals: Vec<RenamePlan>,
}

/// The pattern of the settings, as the contracts see it.
pub open spec fn filter_of(args: &Arguments) -> Option<Seq<char>> {
    match args.match_regex {
        Some(pattern) => Some(pattern@),
        None => None,
    }
}

/// Whether the numbered names of a run over `count` entries can be made: the padding
/// is no longer than a string can be, and the last counter fits a `usize`. A run that
/// rewrites names by a template needs neither.
pub open spec fn numbering_fits(args: &Arguments, count: nat) -> bool {
    args.match_rename is None ==> args.padding <= isize::MAX && counters_fit(args.origin, count)
}

/// The number of entries that a folder lists, 0 where it could not be listed.
pub open spec fn entry_count(folder: &Folder) -> nat {
    match folder {
        Folder::Listed { entries } => entries@.len(),
        _ => 0,
    }
}

/// Begins a run. A folder that is missing, is no directory or cannot be listed ends it
/// with an error before anything is proposed. Otherwise the entries of the wanted kind,
/// whose names match the pattern where there is one, are the items of the run, in the
/// order of the listing; every item gets a proposed rename, numbered from the origin
/// on, or rewritten by the template where there is one.
pub fn run(args: &Arguments, folder: &Folder) -> (begun: Result<Planned, ConfigurationError>)
    requires
        args.well_formed(),
        numbering_fits(args, entry_count(folder)),
    ensures
        match *folder {
            Folder::Missing => begun is Err && begun->Err_0@ == (ConfigurationErrorView::Missing {
                folder: args.folder@,
            }),
            Folder::NotDirectory => begun is Err && begun->Err_0@
                == (ConfigurationErrorView::NotDirectory { folder: args.folder@ }),
            Folder::Unlistable { error } => begun is Err && begun->Err_0@
                == (ConfigurationErrorView::Unlistable { folder: args.folder@, error: error@ }),
            Folder::Listed { entries } => {
                let items = chosen(entries@, args.folder@, args.directory, filter_of(args));
                &&& begun is Ok
                &&& skipped_views(begun->Ok_0.skipped@) == left_out(
                    entries@,
                    args.directory,
                    filter_of(args),
                )
                &&& begun->Ok_0.proposals.len() == items.len()
                &&& forall|i: int|
                    0 <= i < items.len() ==> (#[trigger] begun->Ok_0.proposals[i])@
                        == proposed_plan(args, items[i], i)
            },
        },
{
    match folder {
        Folder::Missing => Err(ConfigurationError::Missing { folder: args.folder.clone() }),
        Folder::NotDirectory => Err(
            ConfigurationError::NotDirectory { folder: args.folder.clone() },
        ),
        Folder::Unlistable { error } => Err(
            ConfigurationError::Unlistable { folder: args.folder.clone(), error: error.clone() },
        ),
        Folder::Listed { entries } => {
            let listing = match &args.match_regex {
                Some(pattern) => filter_items_regex(
                    entries,
                    args.folder.as_str(),
                    args.directory,
                    pattern,
                ),
                None => filter_items(entries, args.folder.as_str(), args.directory),
            };
            proof {
                lemma_every_entry_accounted(
                    entries@,
                    args.folder@,
                    args.directory,
                    filter_of(args),
                );
                assert(item_views(listing.items@).len() == listing.items@.len());
            }
            let proposals = propose(&listing.items, args);
            proof {
                let items = chosen(entries@, args.folder@, args.directory, filter_of(args));
                assert forall|i: int| 0 <= i < items.len() implies (#[trigger] proposals[i])@
                    == proposed_plan(args, items[i], i) by {
                    assert(item_views(listing.items@)[i] == listing.items[i]@);
                }
            }
            Ok(Planned { skipped: listing.skipped, proposals })
        },
    }
}

/// What to do about one rename that passed the guard.
#[derive(Debug, Clone, Copy, PartialEq, Eq, Structural)]
pub enum Step {
    /// The new path is taken by now: leave the entry alone.
    SkipCollision,
    /// The run is a dry run: report the rename, do not make it.
    ReportOnly,
    /// Make the rename.
    Rename,
}

/// The step that is due for a rename, given whether the run is a dry run and whether
/// the new path exists right now.
pub open spec fn step_due(dry_run: bool, occupied: bool) -> Step {
    if occupied {
        Step::SkipCollision
    } else if dry_run {
        Step::ReportOnly
    } else {
        Step::Rename
    }
}

/// Decides about one rename right before it would be made. `occupied` says whether
/// the new path exists at this moment. A rename is made only onto a path that was
/// found free, and never in a dry run.
pub fn decide(dry_run: bool, occupied: bool) -> (step: Step)
    ensures
        step == step_due(dry_run, occupied),
        step is Rename ==> !occupied && !dry_run,
{
    if occupied {
        Step::SkipCollision
    } else if dry_run {
        Step::ReportOnly
    } else {
        Step::Rename
    }
}

/// The outcome of a rename after its step: for a rename that was made, `failure` holds
/// the error where the file system refused it.
pub open spec fn outcome_due(
    plan: PlanView,
    step: Step,
    failure: Option<Seq<char>>,
) -> OutcomeView {
    match step {
        Step::SkipCollision => OutcomeView::SkippedCollision { plan },
        Step::ReportOnly => OutcomeView::SkippedDryRun { plan },
        Step::Rename => match failure {
            None => OutcomeView::Renamed { plan },
            Some(error) => OutcomeView::Failed { plan, error },
        },
    }
}

/// Whatever the file system answers, a rename is made, and recorded as made, only onto
/// a path that was found free right before, and never in a dry run. A path that is
/// taken gives a collision and a dry run gives a report, both without a rename.
pub proof fn lemma_no_rename_onto_taken_path_or_in_dry_run(
    plan: PlanView,
    dry_run: bool,
    occupied: bool,
    failure: Option<Seq<char>>,
)
    ensures
        step_due(dry_run, occupied) is Rename <==> !occupied && !dry_run,
        outcome_due(plan, step_due(dry_run, occupied), failure) is Renamed ==> !occupied
            && !dry_run && failure is None,
        occupied ==> outcome_due(plan, step_due(dry_run, occupied), failure)
            == (OutcomeView::SkippedCollision { plan }),
        dry_run && !occupied ==> outcome_due(plan, step_due(dry_run, occupied), failure)
            == (OutcomeView::SkippedDryRun { plan }),
{
}

/// The paths that exist after the caller has carried out the step for one rename, in a
/// folder that nobody else changes: a rename that went through moves the entry from
/// its old path to its new one, anything else leaves every path as it was.
pub open spec fn paths_after(
    present: Set<Seq<char>>,
    plan: PlanView,
    step: Step,
    failure: Option<Seq<char>>,
) -> Set<Seq<char>> {
    if step is Rename && failure is None {
        present.remove(plan.original_path).insert(plan.new_path)
    } else {
        present
    }
}

/// The paths that exist after the caller has gone through `plans` one by one, each
/// time telling [`decide`] truthfully whether the new path exists and doing what it
/// says; `failures[i]` is what the file system answers to the rename of `plans[i]`
/// where one is made.
pub open spec fn paths_after_all(
    present: Set<Seq<char>>,
    plans: Seq<PlanView>,
    dry_run: bool,
    failures: Seq<Option<Seq<char>>>,
) -> Set<Seq<char>>
    recommends
        failures.len() == plans.len(),
    decreases plans.len(),
{
    if plans.len() == 0 {
        present
    } else {
        let before = paths_after_all(present, plans.drop_last(), dry_run, failures.drop_last());
        paths_after(
            before,
            plans.last(),
            step_due(dry_run, before.contains(plans.last().new_path)),
            failures.last(),
        )
    }
}

/// A dry run leaves the folder as it was, whatever the plans are.
pub proof fn lemma_dry_run_changes_nothing(
    present: Set<Seq<char>>,
    plans: Seq<PlanView>,
    failures: Seq<Option<Seq<char>>>,
)
    ensures
        paths_after_all(present, plans, true, failures) == present,
    decreases plans.len(),
{
    if plans.len() > 0 {
        lemma_dry_run_changes_nothing(present, plans.drop_last(), failures.drop_last());
    }
}

/// No rename takes a path that exists: where the step for a plan changes what the
/// folder holds, the new path of the plan was free before, and no path that existed
/// is lost but the old path of the plan.
pub proof fn lemma_rename_takes_no_existing_path(
    present: Set<Seq<char>>,
    plan: PlanView,
    dry_run: bool,
    failure: Option<Seq<char>>,
)
    ensures
        ({
            let step = step_due(dry_run, present.contains(plan.new_path));
            let after = paths_after(present, plan, step, failure);
            &&& after != present ==> step is Rename && !present.contains(plan.new_path)
            &&& forall|path: Seq<char>|
                present.contains(path) && path != plan.original_path ==> after.contains(path)
        }),
{
}

/// Records how a rename went. Where the step was not to rename, `failure` is not
/// looked at. An outcome says `Renamed` only of a rename that was due and made.
pub fn conclude(plan: &RenamePlan, step: Step, failure: Option<String>) -> (outcome: Outcome)
    ensures
        outcome@ == outcome_due(plan@, step, failure.deep_view()),
        outcome is Renamed ==> step is Rename && failure is None,
{
    let original_path = plan.original_path.clone();
    let new_path = plan.new_path.clone();
    match step {
        Step::SkipCollision => Outcome::SkippedCollision { original_path, new_path },
        Step::ReportOnly => Outcome::SkippedDryRun { original_path, new_path },
        Step::Rename => match failure {
            None => Outcome::Renamed { original_path, new_path },
            Some(error) => Outcome::Failed { original_path, new_path, error },
        },
    }
}

} // verus!
