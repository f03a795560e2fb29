//! What became of each rename, and the lines that report it.

use crate::entries::{Skipped, SkippedView};
use crate::plan::{plan_views, PlanView, RenamePlan};
use crate::text::{push_str, string_of};
use vstd::prelude::*;

verus! {

/// What became of one proposed rename.
#[derive(Debug, Clone, PartialEq, Eq)]
pub enum Outcome {
    /// The entry was renamed.
    Renamed { original_path: String, new_path: String },
    /// The run was a dry run: the rename was reported, not made.
    SkippedDryRun { original_path: String, new_path: String },
    /// The new path was taken: nothing was renamed.
    SkippedCollision { original_path: String, new_path: String },
    /// The rename was tried and failed; `error` says how.
    Failed { original_path: String, new_path: String, error: String },
}

/// What an [`Outcome`] is to the contracts.
pub enum OutcomeView {
    Renamed { plan: PlanView },
    SkippedDryRun { plan: PlanView },
    SkippedCollision { plan: PlanView },
    Failed { plan: PlanView, error: Seq<char> },
}

impl View for Outcome {
    type V = OutcomeView;

    open spec fn view(&self) -> OutcomeView {
        match self {
            Outcome::Renamed { original_path, new_path } => OutcomeView::Renamed {
                plan: PlanView { original_path: original_path@, new_path: new_path@ },
            },
            Outcome::SkippedDryRun { original_path, new_path } => OutcomeView::SkippedDryRun {
                plan: PlanView { original_path: original_path@, new_path: new_path@ },
            },
            Outcome::SkippedCollision { original_path, new_path } => OutcomeView::SkippedCollision {
                plan: PlanView { original_path: original_path@, new_path: new_path@ },
            },
            Outcome::Failed { original_path, new_path, error } => OutcomeView::Failed {
                plan: PlanView { original_path: original_path@, new_path: new_path@ },
                error: error@,
            },
        }
    }
}

/// The views of `outcomes`, in order.
pub open spec fn outcome_views(outcomes: Seq<Outcome>) -> Seq<OutcomeView> {
    outcomes.map_values(|outcome: Outcome| outcome@)
}

/// `` `original` -> `new` ``, as the report lines show a rename.
pub open spec fn arrow_text(plan: PlanView) -> Seq<char> {
    "`"@ + plan.original_path + "` -> `"@ + plan.new_path + "`"@
}

/// The line that reports `outcome`, or `None` where nothing is reported: a rename that
/// went through is reported only in a verbose run.
pub open spec fn outcome_line(outcome: OutcomeView, verbose: bool) -> Option<Seq<char>> {
    match outcome {
        OutcomeView::Renamed { plan } => if verbose {
            Some("[DONE] "@ + arrow_text(plan))
        } else {
            None
        },
        OutcomeView::SkippedDryRun { plan } => Some("[DRY RUN]: "@ + arrow_text(plan)),
        OutcomeView::SkippedCollision { plan } => Some(
            "Item `"@ + plan.new_path + "` already exists, unable to rename."@,
        ),
        OutcomeView::Failed { plan, error } => Some(
            "[FAIL] "@ + arrow_text(plan) + ": "@ + error,
        ),
    }
}

/// The line that warns of an entry left out, or `None` where it is left out silently:
/// a warning is due only where the file system failed.
pub open spec fn skipped_line(skipped: SkippedView) -> Option<Seq<char>> {
    match skipped {
        SkippedView::Unreadable { error } => Some("Unable to read item: "@ + error),
        SkippedView::Untyped { name, error } => Some(
            "Unable to get filetype of "@ + name + ": "@ + error,
        ),
        SkippedView::NoMatch { name } => None,
        SkippedView::WrongKind { name } => None,
    }
}

/// Appends `` `original` -> `new` ``.
fn push_arrow(out: &mut Vec<char>, original_path: &String, new_path: &String)
    ensures
        final(out)@ == old(out)@ + arrow_text(
            PlanView { original_path: original_path@, new_path: new_path@ },
        ),
{
    push_str(out, "`");
    push_str(out, original_path.as_str());
    push_str(out, "` -> `");
    push_str(out, new_path.as_str());
    push_str(out, "`");
}

impl Outcome {
    /// The line that reports this outcome, if one is due.
    pub fn line(&self, verbose: bool) -> (line: Option<String>)
        ensures
            line.deep_view() == outcome_line(self@, verbose),
    {
        let mut out: Vec<char> = Vec::new();
        match self {
            Outcome::Renamed { original_path, new_path } => {
                if !verbose {
                    return None;
                }
                push_str(&mut out, "[DONE] ");
                push_arrow(&mut out, original_path, new_path);
            },
            Outcome::SkippedDryRun { original_path, new_path } => {
                push_str(&mut out, "[DRY RUN]: ");
                push_arrow(&mut out, original_path, new_path);
            },
            Outcome::SkippedCollision { original_path, new_path } => {
                push_str(&mut out, "Item `");
                push_str(&mut out, new_path.as_str());
                push_str(&mut out, "` already exists, unable to rename.");
            },
            Outcome::Failed { original_path, new_path, error } => {
                push_str(&mut out, "[FAIL] ");
                push_arrow(&mut out, original_path, new_path);
                push_str(&mut out, ": ");
                push_str(&mut out, error.as_str());
            },
        }
        Some(string_of(&out))
    }
}

impl Skipped {
    /// The line that warns of this entry, if one is due.
    pub fn line(&self) -> (line: Option<String>)
        ensures
            line.deep_view() == skipped_line(self@),
    {
        let mut out: Vec<char> = Vec::new();
        match self {
            Skipped::Unreadable { error } => {
                push_str(&mut out, "Unable to read item: ");
                push_str(&mut out, error.as_str());
            },
            Skipped::Untyped { name, error } => {
                push_str(&mut out, "Unable to get filetype of ");
                push_str(&mut out, name.as_str());
                push_str(&mut out, ": ");
                push_str(&mut out, error.as_str());
            },
            Skipped::NoMatch { name } => {
                return None;
            },
            Skipped::WrongKind { name } => {
                return None;
            },
        }
        Some(string_of(&out))
    }
}

/// The report of a run: the entries left out while the folder was listed, and what
/// became of every proposed rename.
#[derive(Debug, Clone, PartialEq, Eq)]
pub struct BatchReport {
    pub skipped: Vec<Skipped>,
    pub outcomes: Vec<Outcome>,
}

/// The outcomes of the renames that the guard dropped.
pub open spec fn collision_outcomes(collisions: Seq<PlanView>) -> Seq<OutcomeView> {
    collisions.map_values(|plan: PlanView| OutcomeView::SkippedCollision { plan })
}

impl BatchReport {
    /// Puts a report together: the renames that the guard dropped come first, as
    /// collisions, then the outcomes of the renames that were gone on with.
    pub fn assemble(
        skipped: Vec<Skipped>,
        collisions: &Vec<RenamePlan>,
        executed: Vec<Outcome>,
    ) -> (report: BatchReport)
        ensures
            report.skipped == skipped,
            outcome_views(report.outcomes@) == collision_outcomes(
                plan_views(collisions@),
            ) + outcome_views(executed@),
    {
        let mut outcomes: Vec<Outcome> = Vec::new();
        let mut i: usize = 0;
        while i < collisions.len()
            invariant
                i <= collisions.len(),
                outcome_views(outcomes@) == collision_outcomes(
                    plan_views(collisions@.take(i as int)),
                ),
            decreases collisions.len() - i,
        {
            let plan = &collisions[i];
            let ghost before = outcomes@;
            let ghost seen = collisions@.take(i as int);
            let outcome = Outcome::SkippedCollision {
                original_path: plan.original_path.clone(),
                new_path: plan.new_path.clone(),
            };
            outcomes.push(outcome);
            proof {
                assert(collisions@.take(i + 1) == seen.push(*plan));
                assert(plan_views(seen.push(*plan)) == plan_views(seen).push(plan@));
                assert(collision_outcomes(plan_views(seen).push(plan@)) == collision_outcomes(
                    plan_views(seen),
                ).push(outcome@));
                assert(outcomes@ == before.push(outcome));
                assert(outcome_views(before.push(outcome)) == outcome_views(before).push(
                    outcome@,
                ));
            }
            i += 1;
        }
        assert(collisions@.take(i as int) == collisions@);
        let ghost first = outcomes@;
        let ghost second = executed@;
        let mut executed = executed;
        outcomes.append(&mut executed);
        assert(outcome_views(outcomes@) == outcome_views(first) + outcome_views(second));
        BatchReport { skipped, outcomes }
    }
}

} // verus!
