//! The entries of a folder and the choice among them of the items to rename.

use crate::path::{entry_path, entry_path_of};
use crate::pattern::{regex_is_match, Pattern};
use crate::text::{chars_of, string_of};
use vstd::prelude::*;

verus! {

/// The kind of entry that a run acts on.
#[derive(Debug, Clone, Copy, PartialEq, Eq, Structural)]
pub enum ItemKind {
    File,
    Directory,
}

/// What a folder's entry turned out to be.
#[derive(Debug, Clone, Copy, PartialEq, Eq, Structural)]
pub enum EntryKind {
    File,
    Directory,
    /// Neither a regular file nor a directory.
    Other,
}

/// One step of a folder's listing, as the file system gave it.
#[derive(Debug, Clone, PartialEq, Eq)]
pub enum Entry {
    /// The listing failed at this step; `error` says how.
    Unreadable { error: String },
    /// An entry whose kind could not be found out.
    Untyped { name: String, error: String },
    /// An entry with its base name and kind.
    Typed { name: String, kind: EntryKind },
}

/// An entry chosen for renaming.
#[derive(Debug, Clone, PartialEq, Eq)]
pub struct Item {
    pub path: String,
    pub kind: ItemKind,
}

/// What an [`Item`] is to the contracts.
pub struct ItemView {
    pub path: Seq<char>,
    pub kind: ItemKind,
}

impl View for Item {
    type V = ItemView;

    open spec fn view(&self) -> ItemView {
        ItemView { path: self.path@, kind: self.kind }
    }
}

/// An entry that was left out, and why.
#[derive(Debug, Clone, PartialEq, Eq)]
pub enum Skipped {
    /// The listing failed at this step.
    Unreadable { error: String },
    /// The kind of the entry could not be found out.
    Untyped { name: String, error: String },
    /// The pattern does not match the entry's name.
    NoMatch { name: String },
    /// The entry is not of the kind that the run acts on.
    WrongKind { name: String },
}

/// What a [`Skipped`] is to the contracts.
pub enum SkippedView {
    Unreadable { error: Seq<char> },
    Untyped { name: Seq<char>, error: Seq<char> },
    NoMatch { name: Seq<char> },
    WrongKind { name: Seq<char> },
}

impl View for Skipped {
    type V = SkippedView;

    open spec fn view(&self) -> SkippedView {
        match self {
            Skipped::Unreadable { error } => SkippedView::Unreadable { error: error@ },
            Skipped::Untyped { name, error } => SkippedView::Untyped {
                name: name@,
                error: error@,
            },
            Skipped::NoMatch { name } => SkippedView::NoMatch { name: name@ },
            Skipped::WrongKind { name } => SkippedView::WrongKind { name: name@ },
        }
    }
}

/// The outcome of choosing: the items in the order of the listing, and what was left
/// out, in that order too.
#[derive(Debug, Clone, PartialEq, Eq)]
pub struct Listing {
    pub items: Vec<Item>,
    pub skipped: Vec<Skipped>,
}

/// The views of `items`, in order.
pub open spec fn item_views(items: Seq<Item>) -> Seq<ItemView> {
    items.map_values(|item: Item| item@)
}

/// The views of `skipped`, in order.
pub open spec fn skipped_views(skipped: Seq<Skipped>) -> Seq<SkippedView> {
    skipped.map_values(|one: Skipped| one@)
}

/// The kind of item that a run on directories, or on files, acts on.
pub open spec fn wanted_kind(directory: bool) -> ItemKind {
    if directory {
        ItemKind::Directory
    } else {
        ItemKind::File
    }
}

/// Whether an entry of kind `kind` is of the kind that the run acts on.
pub open spec fn admits(kind: EntryKind, directory: bool) -> bool {
    if directory {
        kind is Directory
    } else {
        kind is File
    }
}

/// Why `entry` is left out, or `None` where it is chosen. With a pattern, the entry's
/// name has to match it; in every case the entry has to be of the wanted kind.
pub open spec fn refusal(
    entry: Entry,
    directory: bool,
    pattern: Option<Seq<char>>,
) -> Option<SkippedView> {
    match entry {
        Entry::Unreadable { error } => Some(SkippedView::Unreadable { error: error@ }),
        Entry::Untyped { name, error } => Some(
            SkippedView::Untyped { name: name@, error: error@ },
        ),
        Entry::Typed { name, kind } => {
            if pattern is Some && !regex_is_match(pattern.unwrap(), name@) {
                Some(SkippedView::NoMatch { name: name@ })
            } else if !admits(kind, directory) {
                Some(SkippedView::WrongKind { name: name@ })
            } else {
                None
            }
        },
    }
}

/// The item that a chosen entry becomes: its path in `folder` and the wanted kind.
pub open spec fn item_of(entry: Entry, folder: Seq<char>, directory: bool) -> ItemView
    recommends
        entry is Typed,
{
    ItemView { path: entry_path(folder, entry->Typed_name@), kind: wanted_kind(directory) }
}

/// The items chosen from `entries`, in the order of the listing.
pub open spec fn chosen(
    entries: Seq<Entry>,
    folder: Seq<char>,
    directory: bool,
    pattern: Option<Seq<char>>,
) -> Seq<ItemView>
    decreases entries.len(),
{
    if entries.len() == 0 {
        Seq::empty()
    } else {
        let before = chosen(entries.drop_last(), folder, directory, pattern);
        if refusal(entries.last(), directory, pattern) is None {
            before.push(item_of(entries.last(), folder, directory))
        } else {
            before
        }
    }
}

/// The entries left out of `entries`, each with its reason, in the order of the listing.
pub open spec fn left_out(
    entries: Seq<Entry>,
    directory: bool,
    pattern: Option<Seq<char>>,
) -> Seq<SkippedView>
    decreases entries.len(),
{
    if entries.len() == 0 {
        Seq::empty()
    } else {
        let before = left_out(entries.drop_last(), directory, pattern);
        match refusal(entries.last(), directory, pattern) {
            Some(reason) => before.push(reason),
            None => before,
        }
    }
}

/// Every entry is either chosen or left out.
pub proof fn lemma_every_entry_accounted(
    entries: Seq<Entry>,
    folder: Seq<char>,
    directory: bool,
    pattern: Option<Seq<char>>,
)
    ensures
        chosen(entries, folder, directory, pattern).len() + left_out(
            entries,
            directory,
            pattern,
        ).len() == entries.len(),
    decreases entries.len(),
{
    if entries.len() > 0 {
        lemma_every_entry_accounted(entries.drop_last(), folder, directory, pattern);
    }
}

/// Whether the item `item` is what the entry `entry` of `folder` becomes when it is
/// chosen: the entry has a name and the wanted kind, the pattern, where there is one,
/// matches the name, and the item lies in the folder under that name.
pub open spec fn comes_from(
    item: ItemView,
    entry: Entry,
    folder: Seq<char>,
    directory: bool,
    pattern: Option<Seq<char>>,
) -> bool {
    &&& entry is Typed
    &&& admits(entry->Typed_kind, directory)
    &&& pattern is Some ==> regex_is_match(pattern.unwrap(), entry->Typed_name@)
    &&& item.path == entry_path(folder, entry->Typed_name@)
    &&& item.kind == wanted_kind(directory)
}

/// Every chosen item comes from an entry of the listing that is of the wanted kind and
/// whose name the pattern, where there is one, matches.
pub proof fn lemma_chosen_items(
    entries: Seq<Entry>,
    folder: Seq<char>,
    directory: bool,
    pattern: Option<Seq<char>>,
    i: int,
)
    requires
        0 <= i < chosen(entries, folder, directory, pattern).len(),
    ensures
        exists|j: int|
            0 <= j < entries.len() && comes_from(
                chosen(entries, folder, directory, pattern)[i],
                #[trigger] entries[j],
                folder,
                directory,
                pattern,
            ),
    decreases entries.len(),
{
    let front = entries.drop_last();
    let before = chosen(front, folder, directory, pattern);
    if i < before.len() {
        lemma_chosen_items(front, folder, directory, pattern, i);
        let j = choose|j: int|
            0 <= j < front.len() && comes_from(
                before[i],
                #[trigger] front[j],
                folder,
                directory,
                pattern,
            );
        assert(entries[j] == front[j]);
    } else {
        assert(entries[entries.len() - 1] == entries.last());
    }
}

fn admitted(kind: EntryKind, directory: bool) -> (yes: bool)
    ensures
        yes == admits(kind, directory),
{
    match kind {
        EntryKind::File => !directory,
        EntryKind::Directory => directory,
        EntryKind::Other => false,
    }
}

/// Chooses among `entries`; with a pattern, only entries whose names it matches.
fn choose_items(
    entries: &Vec<Entry>,
    folder: &str,
    directory: bool,
    pattern: Option<&Pattern>,
) -> (listing: Listing)
    ensures
        item_views(listing.items@) == chosen(entries@, folder@, directory, pattern_view(pattern)),
        skipped_views(listing.skipped@) == left_out(entries@, directory, pattern_view(pattern)),
{
    let folder_chars = chars_of(folder);
    let ghost p = pattern_view(pattern);
    let mut items: Vec<Item> = Vec::new();
    let mut skipped: Vec<Skipped> = Vec::new();
    let mut i: usize = 0;
    assert(entries@.take(0) == Seq::<Entry>::empty());
    while i < entries.len()
        invariant
            i <= entries.len(),
            folder_chars@ == folder@,
            p == pattern_view(pattern),
            item_views(items@) == chosen(entries@.take(i as int), folder@, directory, p),
            skipped_views(skipped@) == left_out(entries@.take(i as int), directory, p),
        decreases entries.len() - i,
    {
        let ghost seen = entries@.take(i + 1);
        assert(seen.drop_last() == entries@.take(i as int));
        assert(seen.last() == entries[i as int]);
        let ghost old_items = items@;
        let ghost old_skipped = skipped@;
        match &entries[i] {
            Entry::Unreadable { error } => {
                skipped.push(Skipped::Unreadable { error: error.clone() });
            },
            Entry::Untyped { name, error } => {
                skipped.push(Skipped::Untyped { name: name.clone(), error: error.clone() });
            },
            Entry::Typed { name, kind } => {
                let matched = match pattern {
                    Some(pattern) => pattern.is_match(name.as_str()),
                    None => true,
                };
                if !matched {
                    skipped.push(Skipped::NoMatch { name: name.clone() });
                } else if !admitted(*kind, directory) {
                    skipped.push(Skipped::WrongKind { name: name.clone() });
                } else {
                    let path = entry_path_of(&folder_chars, &chars_of(name.as_str()));
                    items.push(
                        Item {
                            path: string_of(&path),
                            kind: if directory {
                                ItemKind::Directory
                            } else {
                                ItemKind::File
                            },
                        },
                    );
                }
            },
        }
        proof {
            if refusal(entries[i as int], directory, p) is None {
                assert(skipped@ == old_skipped);
                assert(items@ == old_items.push(items@.last()));
                assert(item_views(items@) == item_views(old_items).push(items@.last()@));
            } else {
                assert(items@ == old_items);
                assert(skipped@ == old_skipped.push(skipped@.last()));
                assert(skipped_views(skipped@) == skipped_views(old_skipped).push(
                    skipped@.last()@,
                ));
            }
        }
        i += 1;
    }
    assert(entries@.take(i as int) == entries@);
    Listing { items, skipped }
}

/// The view of an optional pattern.
pub open spec fn pattern_view(pattern: Option<&Pattern>) -> Option<Seq<char>> {
    match pattern {
        Some(pattern) => Some(pattern@),
        None => None,
    }
}

/// Chooses the entries of `folder` that are of the wanted kind: directories where `dir`
/// is set, regular files where it is not. An entry that could not be read, or whose
/// kind is unknown or another, is left out with its reason.
pub fn filter_items(entries: &Vec<Entry>, folder: &str, dir: bool) -> (listing: Listing)
    ensures
        item_views(listing.items@) == chosen(entries@, folder@, dir, None),
        skipped_views(listing.skipped@) == left_out(entries@, dir, None),
{
    choose_items(entries, folder, dir, None)
}

/// Chooses the entries of `folder` that are of the wanted kind and whose base names
/// `regex` matches.
pub fn filter_items_regex(
    entries: &Vec<Entry>,
    folder: &str,
    dir: bool,
    regex: &Pattern,
) -> (listing: Listing)
    ensures
        item_views(listing.items@) == chosen(entries@, folder@, dir, Some(regex@)),
        skipped_views(listing.skipped@) == left_out(entries@, dir, Some(regex@)),
{
    choose_items(entries, folder, dir, Some(regex))
}

} // verus!
