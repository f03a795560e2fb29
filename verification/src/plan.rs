//! From items to proposed renames, and the guard against names that are taken.

use crate::arguments::Arguments;
use crate::entries::{Item, ItemKind, ItemView};
use crate::naming::{lemma_padded_shape, numbered_path, padded, sequential_path, zeros_before};
use crate::path::{base_name, base_name_of, extension, extension_of};
use crate::pattern::substituted_path;
use crate::text::{
    chars_of, decimal, lemma_decimal_is_injective, lemma_decimal_round_trip, numeral_value,
    string_of,
};
use vstd::prelude::*;

verus! {

/// One rename: the path of an item and the path it is to get.
#[derive(Debug, Clone, PartialEq, Eq)]
pub struct RenamePlan {
    pub original_path: String,
    pub new_path: String,
}

/// What a [`RenamePlan`] is to the contracts.
pub struct PlanView {
    pub original_path: Seq<char>,
    pub new_path: Seq<char>,
}

impl View for RenamePlan {
    type V = PlanView;

    open spec fn view(&self) -> PlanView {
        PlanView { original_path: self.original_path@, new_path: self.new_path@ }
    }
}

/// The views of `plans`, in order.
pub open spec fn plan_views(plans: Seq<RenamePlan>) -> Seq<PlanView> {
    plans.map_values(|plan: RenamePlan| plan@)
}

/// The extension that the numbered name of `item` keeps: that of its base name for a
/// file, none for a directory.
pub open spec fn kept_extension(item: ItemView) -> Seq<char> {
    match item.kind {
        ItemKind::File => extension(base_name(item.path)),
        ItemKind::Directory => Seq::empty(),
    }
}

/// The numbered rename of the item at place `index` of a run: its counter is the
/// origin plus its place.
pub open spec fn numbered_plan(args: &Arguments, item: ItemView, index: int) -> PlanView {
    PlanView {
        original_path: item.path,
        new_path: numbered_path(
            args.folder@,
            args.prefix@,
            decimal((args.origin + index) as nat),
            args.padding as nat,
            args.padding_direction,
            kept_extension(item),
        ),
    }
}

/// The rename of `item` by pattern and template: its base name is rewritten, the rest
/// of its path stays.
pub open spec fn rewritten_plan(
    pattern: Seq<char>,
    template: Seq<char>,
    item: ItemView,
) -> PlanView {
    PlanView {
        original_path: item.path,
        new_path: substituted_path(pattern, template, item.path),
    }
}

/// In a numbered run the counters are the origin and the numbers after it, one for
/// each item in the order of the items, and no two items share one. Each counter is
/// written in full in decimal, with zeros on the side that the settings name, so that
/// it takes up the padding width, or its own length where that is more.
pub proof fn lemma_numbered_plans(args: &Arguments, items: Seq<ItemView>, i: int, j: int)
    requires
        0 <= i < items.len(),
        0 <= j < items.len(),
    ensures
        ({
            let counter = (args.origin + i) as nat;
            let shown = padded(decimal(counter), args.padding as nat, args.padding_direction);
            let before = zeros_before(
                decimal(counter).len(),
                args.padding as nat,
                args.padding_direction,
            ) as int;
            &&& numbered_plan(args, items[i], i).original_path == items[i].path
            &&& numbered_plan(args, items[i], i).new_path == args.folder@ + seq!['/']
                + args.prefix@ + seq!['_'] + shown + kept_extension(items[i])
            &&& numeral_value(decimal(counter)) == counter
            &&& shown.len() >= args.padding
            &&& shown.len() >= decimal(counter).len()
            &&& shown.len() == args.padding || shown.len() == decimal(counter).len()
            &&& shown.subrange(before, before + decimal(counter).len()) == decimal(counter)
            &&& forall|k: int|
                0 <= k < shown.len() && !(before <= k < before + decimal(counter).len())
                    ==> #[trigger] shown[k] == '0'
        }),
        i != j ==> decimal((args.origin + i) as nat) != decimal((args.origin + j) as nat),
{
    let counter = (args.origin + i) as nat;
    lemma_decimal_round_trip(counter);
    lemma_padded_shape(decimal(counter), args.padding as nat, args.padding_direction);
    if i != j && decimal(counter) == decimal((args.origin + j) as nat) {
        lemma_decimal_is_injective(counter, (args.origin + j) as nat);
    }
}

/// Whether every item can get its counter: the last counter fits a `usize`.
pub open spec fn counters_fit(origin: usize, count: nat) -> bool {
    count > 0 ==> origin + count - 1 <= usize::MAX
}

/// Numbers the items: the item at place `i` gets the counter `origin + i`, whatever
/// becomes of the other items later, and the name
/// `{folder}/{prefix}_{counter}{extension}` with the counter padded.
pub fn rename_normal(items: &Vec<Item>, args: &Arguments) -> (plans: Vec<RenamePlan>)
    requires
        args.padding <= isize::MAX,
        counters_fit(args.origin, items.len() as nat),
    ensures
        plans.len() == items.len(),
        forall|i: int|
            0 <= i < items.len() ==> (#[trigger] plans[i])@ == numbered_plan(args, items[i]@, i),
{
    let mut plans: Vec<RenamePlan> = Vec::new();
    let mut i: usize = 0;
    while i < items.len()
        invariant
            i <= items.len(),
            plans.len() == i,
            args.padding <= isize::MAX,
            counters_fit(args.origin, items.len() as nat),
            forall|k: int|
                0 <= k < i ==> (#[trigger] plans[k])@ == numbered_plan(args, items[k]@, k),
        decreases items.len() - i,
    {
        let item = &items[i];
        let ext = match item.kind {
            ItemKind::File => {
                let path = chars_of(item.path.as_str());
                let name = base_name_of(&path);
                string_of(&extension_of(&name))
            },
            ItemKind::Directory => String::new(),
        };
        let new_path = sequential_path(
            args.folder.as_str(),
            args.prefix.as_str(),
            args.origin + i,
            args.padding,
            args.padding_direction,
            ext.as_str(),
        );
        plans.push(RenamePlan { original_path: item.path.clone(), new_path });
        i += 1;
    }
    plans
}

/// Rewrites the names of the items: each base name becomes the template filled from
/// the first match of the pattern in it, in the same place as before. Every item is
/// rewritten by itself.
pub fn rename_regex(items: &Vec<Item>, args: &Arguments) -> (plans: Vec<RenamePlan>)
    requires
        args.match_regex is Some,
        args.match_rename is Some,
    ensures
        plans.len() == items.len(),
        forall|i: int|
            0 <= i < items.len() ==> (#[trigger] plans[i])@ == rewritten_plan(
                args.match_regex.unwrap()@,
                args.match_rename.unwrap()@,
                items[i]@,
            ),
{
    let mut plans: Vec<RenamePlan> = Vec::new();
    match (&args.match_regex, &args.match_rename) {
        (Some(pattern), Some(template)) => {
            let mut i: usize = 0;
            while i < items.len()
                invariant
                    i <= items.len(),
                    plans.len() == i,
                    forall|k: int|
                        0 <= k < i ==> (#[trigger] plans[k])@ == rewritten_plan(
                            pattern@,
                            template@,
                            items[k]@,
                        ),
                decreases items.len() - i,
            {
                let item = &items[i];
                let new_path = pattern.substitute_path(template.as_str(), item.path.as_str());
                plans.push(RenamePlan { original_path: item.path.clone(), new_path });
                i += 1;
            }
        },
        _ => {},
    }
    plans
}

/// The rename that the settings propose for the item at place `index`: rewritten where
/// there is a template, numbered where there is none.
pub open spec fn proposed_plan(args: &Arguments, item: ItemView, index: int) -> PlanView {
    if args.match_rename is Some {
        rewritten_plan(args.match_regex.unwrap()@, args.match_rename.unwrap()@, item)
    } else {
        numbered_plan(args, item, index)
    }
}

/// Proposes a rename for every item, in the order of the items.
pub fn propose(items: &Vec<Item>, args: &Arguments) -> (plans: Vec<RenamePlan>)
    requires
        args.well_formed(),
        args.match_rename is None ==> args.padding <= isize::MAX && counters_fit(
            args.origin,
            items.len() as nat,
        ),
    ensures
        plans.len() == items.len(),
        forall|i: int|
            0 <= i < items.len() ==> (#[trigger] plans[i])@ == proposed_plan(args, items[i]@, i),
{
    if args.match_rename.is_some() {
        rename_regex(items, args)
    } else {
        rename_normal(items, args)
    }
}

/// A proposed rename together with whether its new path is taken already.
#[derive(Debug, Clone, PartialEq, Eq)]
pub struct Probed {
    pub plan: RenamePlan,
    pub occupied: bool,
}

/// The proposals split by the guard.
#[derive(Debug, Clone, PartialEq, Eq)]
pub struct Guarded {
    /// The renames to go on with, in the order of the proposals.
    pub plans: Vec<RenamePlan>,
    /// The renames dropped because their new path is taken, in that order too.
    pub collisions: Vec<RenamePlan>,
}

/// The proposals whose new path is free, in order.
pub open spec fn free_plans(probed: Seq<Probed>) -> Seq<PlanView>
    decreases probed.len(),
{
    if probed.len() == 0 {
        Seq::empty()
    } else if probed.last().occupied {
        free_plans(probed.drop_last())
    } else {
        free_plans(probed.drop_last()).push(probed.last().plan@)
    }
}

/// The proposals whose new path is taken, in order.
pub open spec fn taken_plans(probed: Seq<Probed>) -> Seq<PlanView>
    decreases probed.len(),
{
    if probed.len() == 0 {
        Seq::empty()
    } else if probed.last().occupied {
        taken_plans(probed.drop_last()).push(probed.last().plan@)
    } else {
        taken_plans(probed.drop_last())
    }
}

/// Every plan that passes the guard is a proposal whose new path was found free.
pub proof fn lemma_free_plans_were_free(probed: Seq<Probed>, i: int)
    requires
        0 <= i < free_plans(probed).len(),
    ensures
        exists|j: int|
            0 <= j < probed.len() && !(#[trigger] probed[j]).occupied && probed[j].plan@
                == free_plans(probed)[i],
    decreases probed.len(),
{
    let front = probed.drop_last();
    if i < free_plans(front).len() {
        lemma_free_plans_were_free(front, i);
        let j = choose|j: int|
            0 <= j < front.len() && !(#[trigger] front[j]).occupied && front[j].plan@
                == free_plans(front)[i];
        assert(probed[j] == front[j]);
    } else {
        assert(probed[probed.len() - 1] == probed.last());
    }
}

/// The guard loses no proposal: each is either kept or dropped.
pub proof fn lemma_guard_accounts(probed: Seq<Probed>)
    ensures
        free_plans(probed).len() + taken_plans(probed).len() == probed.len(),
    decreases probed.len(),
{
    if probed.len() > 0 {
        lemma_guard_accounts(probed.drop_last());
    }
}

/// Drops every proposal whose new path is taken and keeps the others.
pub fn guard(probed: &Vec<Probed>) -> (guarded: Guarded)
    ensures
        plan_views(guarded.plans@) == free_plans(probed@),
        plan_views(guarded.collisions@) == taken_plans(probed@),
{
    let mut plans: Vec<RenamePlan> = Vec::new();
    let mut collisions: Vec<RenamePlan> = Vec::new();
    let mut i: usize = 0;
    assert(probed@.take(0) == Seq::<Probed>::empty());
    while i < probed.len()
        invariant
            i <= probed.len(),
            plan_views(plans@) == free_plans(probed@.take(i as int)),
            plan_views(collisions@) == taken_plans(probed@.take(i as int)),
        decreases probed.len() - i,
    {
        let ghost seen = probed@.take(i + 1);
        assert(seen.drop_last() == probed@.take(i as int));
        assert(seen.last() == probed[i as int]);
        let ghost old_plans = plans@;
        let ghost old_collisions = collisions@;
        let one = &probed[i];
        let plan = RenamePlan {
            original_path: one.plan.original_path.clone(),
            new_path: one.plan.new_path.clone(),
        };
        if one.occupied {
            collisions.push(plan);
            assert(collisions@ == old_collisions.push(plan));
            assert(plan_views(collisions@) == plan_views(old_collisions).push(plan@));
        } else {
            plans.push(plan);
            assert(plans@ == old_plans.push(plan));
            assert(plan_views(plans@) == plan_views(old_plans).push(plan@));
        }
        i += 1;
    }
    assert(probed@.take(i as int) == probed@);
    Guarded { plans, collisions }
}

} // verus!
