use rena::engine::{conclude, decide, run, Folder, Step};
use rena::entries::{Entry, EntryKind};
use rena::outcome::Outcome;
use rena::pattern::Pattern;
use rena::plan::{guard, Probed, RenamePlan};
use rena::Arguments;

fn listing_of(filenames: &[&str]) -> Folder {
    Folder::Listed {
        entries: filenames
            .iter()
            .map(|name| Entry::Typed { name: name.to_string(), kind: EntryKind::File })
            .collect(),
    }
}

/// Runs the whole pipeline on a folder held in memory and returns the names that the
/// folder holds afterwards.
fn names_after_run(args: &Arguments, filenames: &[&str]) -> Vec<String> {
    let mut present: Vec<String> =
        filenames.iter().map(|name| format!("{}/{}", args.folder, name)).collect();
    let planned = run(args, &listing_of(filenames)).expect("the folder is listed");
    let probed: Vec<Probed> = planned
        .proposals
        .into_iter()
        .map(|plan| {
            let occupied = present.contains(&plan.new_path);
            Probed { plan, occupied }
        })
        .collect();
    let guarded = guard(&probed);
    for plan in &guarded.plans {
        let step = decide(args.dry_run, present.contains(&plan.new_path));
        if step == Step::Rename {
            let at = present.iter().position(|path| path == &plan.original_path);
            let at = at.expect("the original is present");
            present[at] = plan.new_path.clone();
        }
        let outcome = conclude(plan, step, None);
        assert!(matches!(outcome, Outcome::Renamed { .. }));
    }
    present
}

fn check_filenames(folder: &str, present: &[String], filenames: &[&str]) {
    for x in filenames {
        assert!(present.contains(&format!("{}/{}", folder, x)), "file {} does not exist", x);
    }
}

#[test]
fn simple_rename() {
    const SIMPLE_FILENAMES: &[&str] =
        &["image.jpg", "image3.jpg", "12746uju21.jpg", "17f29a002.jpg"];
    const SIMPLE_EXPECTED: &[&str] = &[
        "item_0000000000.jpg",
        "item_0000000001.jpg",
        "item_0000000002.jpg",
        "item_0000000003.jpg",
    ];

    let args = Arguments {
        folder: "images".to_owned(),
        prefix: "item".to_owned(),
        padding: 10,
        ..Arguments::default()
    };

    let present = names_after_run(&args, SIMPLE_FILENAMES);

    assert_eq!(present.len(), 4);
    check_filenames("images", &present, SIMPLE_EXPECTED);
}

#[test]
fn regex_filtering() {
    const REGEX_FILENAMES: &[&str] = &[
        "image.jpg",
        "17f2121wss.png",
        "image3.mp4",
        "12746uju21.jpg",
        "17f29a002.jpg",
        "ffe_image_breaker.webm",
        "potential_effort.jpg",
    ];
    const REGEX_EXPECTED: &[&str] = &[
        "item_0000000000.jpg",
        "item_0000000001.png",
        "item_0000000002.jpg",
        "item_0000000003.jpg",
        "item_0000000004.jpg",
        "ffe_image_breaker.webm",
        "image3.mp4",
    ];

    let args = Arguments {
        folder: "images".to_owned(),
        prefix: "item".to_owned(),
        padding: 10,
        match_regex: Some(Pattern::new(r"\.[jpgn]+").expect("failed to compile regex")),
        ..Arguments::default()
    };

    let present = names_after_run(&args, REGEX_FILENAMES);

    assert_eq!(present.len(), 7);
    check_filenames("images", &present, REGEX_EXPECTED);
}

#[test]
fn usage_for_shows() {
    const SHOWS_FILENAMES: &[&str] = &[
        "Show.S01E01.1080p.mkv",
        "Show.S01E02.1080p.mkv",
        "Show.S01E03.1080p.mkv",
        "Show.S02E01.1080p.mkv",
        "Show.S02E02.1080p.mkv",
        "Show.S02E03.1080p.mkv",
    ];
    const SHOWS_EXPECTED: &[&str] = &[
        "Show S01 E01 (1080p).mkv",
        "Show S01 E02 (1080p).mkv",
        "Show S01 E03 (1080p).mkv",
        "Show S02 E01 (1080p).mkv",
        "Show S02 E02 (1080p).mkv",
        "Show S02 E03 (1080p).mkv",
    ];

    let args = Arguments {
        folder: "Show".to_owned(),
        match_regex: Some(
            Pattern::new(r"Show\.S(\d+)E(\d+)\.1080p\.mkv").expect("failed to compile regex"),
        ),
        match_rename: Some(r"Show S${1} E${2} (1080p).mkv".to_owned()),
        ..Arguments::default()
    };

    let present = names_after_run(&args, SHOWS_FILENAMES);

    assert_eq!(present.len(), 6);
    check_filenames("Show", &present, SHOWS_EXPECTED);
}

#[test]
fn shows_with_other_files_leave_those_untouched() {
    let args = Arguments {
        folder: "Show".to_owned(),
        match_regex: Some(Pattern::new(r"Show\.S(\d+)E(\d+)\.1080p\.mkv").unwrap()),
        match_rename: Some(r"Show S${1} E${2} (1080p).mkv".to_owned()),
        ..Arguments::default()
    };
    let present = names_after_run(&args, &["notes.txt", "Show.S01E01.1080p.mkv", "cover.png"]);
    assert_eq!(
        present,
        vec![
            "Show/notes.txt".to_string(),
            "Show/Show S01 E01 (1080p).mkv".to_string(),
            "Show/cover.png".to_string()
        ]
    );
}

#[test]
fn sequential_counters_follow_the_listing_from_the_origin() {
    let args = Arguments {
        folder: "d".to_owned(),
        prefix: "p".to_owned(),
        padding: 3,
        origin: 8,
        ..Arguments::default()
    };
    let planned = run(&args, &listing_of(&["b.txt", "a", "c.tar.gz", ".hidden"])).unwrap();
    assert_eq!(
        planned.proposals,
        vec![
            RenamePlan { original_path: "d/b.txt".into(), new_path: "d/p_008.txt".into() },
            RenamePlan { original_path: "d/a".into(), new_path: "d/p_009".into() },
            RenamePlan { original_path: "d/c.tar.gz".into(), new_path: "d/p_010.gz".into() },
            RenamePlan { original_path: "d/.hidden".into(), new_path: "d/p_011.hidden".into() },
        ]
    );
}

#[test]
fn a_dropped_item_still_uses_up_its_counter() {
    let args = Arguments {
        folder: "d".to_owned(),
        prefix: "item".to_owned(),
        padding: 2,
        ..Arguments::default()
    };
    let planned = run(&args, &listing_of(&["x.jpg", "item_01.jpg", "y.jpg"])).unwrap();
    let present = ["d/x.jpg", "d/item_01.jpg", "d/y.jpg"];
    let probed: Vec<Probed> = planned
        .proposals
        .into_iter()
        .map(|plan| {
            let occupied = present.contains(&plan.new_path.as_str());
            Probed { plan, occupied }
        })
        .collect();
    let guarded = guard(&probed);
    assert_eq!(
        guarded.plans,
        vec![
            RenamePlan { original_path: "d/x.jpg".into(), new_path: "d/item_00.jpg".into() },
            RenamePlan { original_path: "d/y.jpg".into(), new_path: "d/item_02.jpg".into() },
        ]
    );
    assert_eq!(
        guarded.collisions,
        vec![RenamePlan {
            original_path: "d/item_01.jpg".into(),
            new_path: "d/item_01.jpg".into()
        }]
    );
}

#[test]
fn collision_is_reported_and_the_original_stays() {
    let plan = RenamePlan { original_path: "d/a.jpg".into(), new_path: "d/item_0.jpg".into() };
    let step = decide(false, true);
    assert_eq!(step, Step::SkipCollision);
    let outcome = conclude(&plan, step, None);
    assert_eq!(
        outcome,
        Outcome::SkippedCollision {
            original_path: "d/a.jpg".into(),
            new_path: "d/item_0.jpg".into()
        }
    );
}

#[test]
fn directories_get_no_extension() {
    let args = Arguments {
        folder: "d".to_owned(),
        prefix: "dir".to_owned(),
        padding: 2,
        directory: true,
        ..Arguments::default()
    };
    let folder = Folder::Listed {
        entries: vec![
            Entry::Typed { name: "photos.old".into(), kind: EntryKind::Directory },
            Entry::Typed { name: "file.txt".into(), kind: EntryKind::File },
        ],
    };
    let planned = run(&args, &folder).unwrap();
    assert_eq!(
        planned.proposals,
        vec![RenamePlan { original_path: "d/photos.old".into(), new_path: "d/dir_00".into() }]
    );
}
