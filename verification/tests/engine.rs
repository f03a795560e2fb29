use rena::arguments::{ArgumentError, Lookup, RawArguments};
use rena::engine::{conclude, decide, run, ConfigurationError, Folder, Step};
use rena::entries::{filter_items, filter_items_regex, Entry, EntryKind, Item, ItemKind, Skipped};
use rena::outcome::{BatchReport, Outcome};
use rena::pattern::Pattern;
use rena::plan::{guard, propose, rename_normal, rename_regex, Probed, RenamePlan};
use rena::{Arguments, PaddingDirection};

fn file(name: &str) -> Entry {
    Entry::Typed { name: name.to_string(), kind: EntryKind::File }
}

fn directory(name: &str) -> Entry {
    Entry::Typed { name: name.to_string(), kind: EntryKind::Directory }
}

fn plan(original: &str, new: &str) -> RenamePlan {
    RenamePlan { original_path: original.to_string(), new_path: new.to_string() }
}

#[test]
fn a_folder_that_is_not_there_ends_the_run() {
    let args = Arguments { folder: "gone".into(), ..Arguments::default() };
    let error = run(&args, &Folder::Missing).unwrap_err();
    assert_eq!(error, ConfigurationError::Missing { folder: "gone".into() });
    assert_eq!(error.message(), "Folder `gone` does not exist.");
}

#[test]
fn a_folder_that_is_a_file_ends_the_run() {
    let args = Arguments { folder: "a.txt".into(), ..Arguments::default() };
    let error = run(&args, &Folder::NotDirectory).unwrap_err();
    assert_eq!(error, ConfigurationError::NotDirectory { folder: "a.txt".into() });
    assert_eq!(error.message(), "`a.txt` is not a folder.");
}

#[test]
fn a_folder_that_cannot_be_listed_ends_the_run() {
    let args = Arguments { folder: "locked".into(), ..Arguments::default() };
    let error = run(&args, &Folder::Unlistable { error: "Permission denied".into() }).unwrap_err();
    assert_eq!(
        error,
        ConfigurationError::Unlistable { folder: "locked".into(), error: "Permission denied".into() }
    );
    assert_eq!(error.message(), "Unable to read directory locked: Permission denied");
}

#[test]
fn an_empty_folder_gives_an_empty_plan() {
    let args = Arguments { folder: "d".into(), origin: usize::MAX, ..Arguments::default() };
    let planned = run(&args, &Folder::Listed { entries: vec![] }).unwrap();
    assert!(planned.proposals.is_empty());
    assert!(planned.skipped.is_empty());
}

#[test]
fn listing_keeps_the_wanted_kind_in_order() {
    let entries = vec![
        file("b"),
        directory("sub"),
        Entry::Unreadable { error: "broken".into() },
        file("a"),
        Entry::Untyped { name: "odd".into(), error: "denied".into() },
        Entry::Typed { name: "link".into(), kind: EntryKind::Other },
    ];
    let listing = filter_items(&entries, "d", false);
    assert_eq!(
        listing.items,
        vec![
            Item { path: "d/b".into(), kind: ItemKind::File },
            Item { path: "d/a".into(), kind: ItemKind::File },
        ]
    );
    assert_eq!(
        listing.skipped,
        vec![
            Skipped::WrongKind { name: "sub".into() },
            Skipped::Unreadable { error: "broken".into() },
            Skipped::Untyped { name: "odd".into(), error: "denied".into() },
            Skipped::WrongKind { name: "link".into() },
        ]
    );
    let listing = filter_items(&entries, "d/", true);
    assert_eq!(listing.items, vec![Item { path: "d/sub".into(), kind: ItemKind::Directory }]);
    assert_eq!(listing.skipped.len(), 5);
}

#[test]
fn listing_with_a_pattern_wants_a_match_too() {
    let entries = vec![file("a.jpg"), file("b.txt"), directory("c.jpg"), file("d.jpg")];
    let pattern = Pattern::new(r"\.jpg$").unwrap();
    let listing = filter_items_regex(&entries, "", false, &pattern);
    assert_eq!(
        listing.items,
        vec![
            Item { path: "a.jpg".into(), kind: ItemKind::File },
            Item { path: "d.jpg".into(), kind: ItemKind::File },
        ]
    );
    assert_eq!(
        listing.skipped,
        vec![Skipped::NoMatch { name: "b.txt".into() }, Skipped::WrongKind { name: "c.jpg".into() }]
    );
}

#[test]
fn warnings_for_what_the_file_system_refused() {
    assert_eq!(
        Skipped::Unreadable { error: "broken".into() }.line(),
        Some("Unable to read item: broken".to_string())
    );
    assert_eq!(
        Skipped::Untyped { name: "odd".into(), error: "denied".into() }.line(),
        Some("Unable to get filetype of odd: denied".to_string())
    );
    assert_eq!(Skipped::NoMatch { name: "x".into() }.line(), None);
    assert_eq!(Skipped::WrongKind { name: "x".into() }.line(), None);
}

#[test]
fn numbering_and_rewriting_by_themselves() {
    let items = vec![
        Item { path: "d/one.txt".into(), kind: ItemKind::File },
        Item { path: "d/two".into(), kind: ItemKind::File },
    ];
    let args = Arguments {
        folder: "d".into(),
        prefix: "n".into(),
        padding: 4,
        padding_direction: PaddingDirection::Right,
        origin: 5,
        ..Arguments::default()
    };
    let numbered = vec![plan("d/one.txt", "d/n_5000.txt"), plan("d/two", "d/n_6000")];
    assert_eq!(rename_normal(&items, &args), numbered);
    assert_eq!(propose(&items, &args), numbered);

    let args = Arguments {
        folder: "d".into(),
        match_regex: Some(Pattern::new(r"^(.)(.*?)(\.txt)?$").unwrap()),
        match_rename: Some("${2}${1}$3".into()),
        ..Arguments::default()
    };
    let rewritten = vec![plan("d/one.txt", "d/neo.txt"), plan("d/two", "d/wot")];
    assert_eq!(rename_regex(&items, &args), rewritten);
    assert_eq!(propose(&items, &args), rewritten);
}

#[test]
fn the_last_counter_may_be_the_largest_number() {
    let items = vec![
        Item { path: "d/a".into(), kind: ItemKind::File },
        Item { path: "d/b".into(), kind: ItemKind::File },
    ];
    let args = Arguments { folder: "d".into(), origin: usize::MAX - 1, ..Arguments::default() };
    let plans = rename_normal(&items, &args);
    assert_eq!(plans[1].new_path, format!("d/_{}", usize::MAX));
}

#[test]
fn the_guard_splits_in_order() {
    let probed = vec![
        Probed { plan: plan("a", "1"), occupied: false },
        Probed { plan: plan("b", "2"), occupied: true },
        Probed { plan: plan("c", "3"), occupied: true },
        Probed { plan: plan("d", "4"), occupied: false },
    ];
    let guarded = guard(&probed);
    assert_eq!(guarded.plans, vec![plan("a", "1"), plan("d", "4")]);
    assert_eq!(guarded.collisions, vec![plan("b", "2"), plan("c", "3")]);
    let nothing = guard(&Vec::new());
    assert!(nothing.plans.is_empty() && nothing.collisions.is_empty());
}

#[test]
fn decisions() {
    assert_eq!(decide(false, false), Step::Rename);
    assert_eq!(decide(true, false), Step::ReportOnly);
    assert_eq!(decide(false, true), Step::SkipCollision);
    assert_eq!(decide(true, true), Step::SkipCollision);
}

#[test]
fn a_dry_run_never_renames() {
    for occupied in [false, true] {
        assert_ne!(decide(true, occupied), Step::Rename);
    }
}

#[test]
fn outcomes_and_their_lines() {
    let p = plan("d/a", "d/b");
    let renamed = conclude(&p, Step::Rename, None);
    assert_eq!(renamed, Outcome::Renamed { original_path: "d/a".into(), new_path: "d/b".into() });
    assert_eq!(renamed.line(false), None);
    assert_eq!(renamed.line(true), Some("[DONE] `d/a` -> `d/b`".to_string()));

    let failed = conclude(&p, Step::Rename, Some("Permission denied".into()));
    assert_eq!(
        failed,
        Outcome::Failed {
            original_path: "d/a".into(),
            new_path: "d/b".into(),
            error: "Permission denied".into()
        }
    );
    assert_eq!(failed.line(false), Some("[FAIL] `d/a` -> `d/b`: Permission denied".to_string()));

    let dry = conclude(&p, Step::ReportOnly, Some("ignored".into()));
    assert_eq!(dry, Outcome::SkippedDryRun { original_path: "d/a".into(), new_path: "d/b".into() });
    assert_eq!(dry.line(false), Some("[DRY RUN]: `d/a` -> `d/b`".to_string()));

    let collision = conclude(&p, Step::SkipCollision, None);
    assert_eq!(
        collision,
        Outcome::SkippedCollision { original_path: "d/a".into(), new_path: "d/b".into() }
    );
    assert_eq!(
        collision.line(true),
        Some("Item `d/b` already exists, unable to rename.".to_string())
    );
}

#[test]
fn a_report_lists_collisions_first() {
    let skipped = vec![Skipped::WrongKind { name: "sub".into() }];
    let executed = vec![Outcome::Renamed { original_path: "a".into(), new_path: "1".into() }];
    let report = BatchReport::assemble(skipped.clone(), &vec![plan("b", "2")], executed);
    assert_eq!(report.skipped, skipped);
    assert_eq!(
        report.outcomes,
        vec![
            Outcome::SkippedCollision { original_path: "b".into(), new_path: "2".into() },
            Outcome::Renamed { original_path: "a".into(), new_path: "1".into() },
        ]
    );
}

fn raw() -> RawArguments {
    RawArguments {
        folder: Some("images".into()),
        directory: false,
        verbose: true,
        origin: Some("3".into()),
        prefix: Some("item".into()),
        padding: Some("10".into()),
        padding_direction: Lookup::Found("Middle".into()),
        match_regex: Lookup::Found(r"(\d+)".into()),
        match_rename: Lookup::Found("n$1".into()),
        dry_run: true,
    }
}

#[test]
fn settings_from_a_command_line() {
    let args = Arguments::try_from(&raw()).unwrap();
    assert_eq!(args.folder, "images");
    assert!(!args.directory && args.verbose && args.dry_run);
    assert_eq!(args.origin, 3);
    assert_eq!(args.prefix, "item");
    assert_eq!(args.padding, 10);
    assert_eq!(args.padding_direction, PaddingDirection::Middle);
    assert_eq!(args.match_regex.unwrap().as_str(), r"(\d+)");
    assert_eq!(args.match_rename, Some("n$1".to_string()));

    let plain = RawArguments {
        padding_direction: Lookup::Unknown,
        match_regex: Lookup::Absent,
        match_rename: Lookup::Absent,
        ..raw()
    };
    let args = Arguments::try_from(&plain).unwrap();
    assert_eq!(args.padding_direction, PaddingDirection::Left);
    assert!(args.match_regex.is_none() && args.match_rename.is_none());
    let args =
        Arguments::try_from(&RawArguments { padding_direction: Lookup::Absent, ..raw() }).unwrap();
    assert_eq!(args.padding_direction, PaddingDirection::Left);
}

#[test]
fn each_argument_error_has_its_input() {
    let fails = |raw: RawArguments| Arguments::try_from(&raw).unwrap_err();
    assert_eq!(fails(RawArguments { folder: None, ..raw() }), ArgumentError::Folder);
    assert_eq!(fails(RawArguments { origin: None, ..raw() }), ArgumentError::Origin);
    assert_eq!(fails(RawArguments { origin: Some("x".into()), ..raw() }), ArgumentError::Origin);
    assert_eq!(fails(RawArguments { prefix: None, ..raw() }), ArgumentError::Prefix);
    assert_eq!(fails(RawArguments { padding: Some("".into()), ..raw() }), ArgumentError::Padding);
    assert_eq!(fails(RawArguments { padding: None, ..raw() }), ArgumentError::Padding);
    assert_eq!(
        fails(RawArguments { padding_direction: Lookup::Found("up".into()), ..raw() }),
        ArgumentError::PaddingDirection
    );
    assert_eq!(
        fails(RawArguments { padding_direction: Lookup::Invalid("bad".into()), ..raw() }),
        ArgumentError::PaddingDirection
    );
    assert_eq!(
        fails(RawArguments { match_regex: Lookup::Invalid("bad".into()), ..raw() }),
        ArgumentError::Match { detail: "bad".into() }
    );
    assert_eq!(
        fails(RawArguments { match_regex: Lookup::Unknown, ..raw() }),
        ArgumentError::Match { detail: "unknown argument".into() }
    );
    assert_eq!(
        fails(RawArguments { match_rename: Lookup::Invalid("worse".into()), ..raw() }),
        ArgumentError::MatchRename { detail: "worse".into() }
    );
    assert!(matches!(
        fails(RawArguments { match_regex: Lookup::Found("a)".into()), ..raw() }),
        ArgumentError::Pattern { .. }
    ));
    assert_eq!(
        fails(RawArguments { match_regex: Lookup::Absent, ..raw() }),
        ArgumentError::RenameWithoutMatch
    );
    // The first fault is the one reported.
    assert_eq!(
        fails(RawArguments { folder: None, origin: None, ..raw() }),
        ArgumentError::Folder
    );
}
