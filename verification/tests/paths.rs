use rena::path::{base_name_of, directory_part_of, entry_path_of, extension_of, find_last};
use rena::text::{chars_of, push_all, push_str, slice_of, spells};
use rena::Arguments;

fn text(chars: Vec<char>) -> String {
    chars.into_iter().collect()
}

#[test]
fn a_path_falls_into_directory_part_and_base_name() {
    for (path, dir, name) in [
        ("dir/sub/file.txt", "dir/sub/", "file.txt"),
        ("file.txt", "", "file.txt"),
        ("/file", "/", "file"),
        ("dir/", "dir/", ""),
        ("", "", ""),
        ("a//b", "a//", "b"),
        ("ä/ö.ü", "ä/", "ö.ü"),
    ] {
        let chars = chars_of(path);
        assert_eq!(text(directory_part_of(&chars)), dir, "{:?}", path);
        assert_eq!(text(base_name_of(&chars)), name, "{:?}", path);
    }
}

#[test]
fn the_extension_starts_at_the_last_dot() {
    for (name, ext) in [
        ("image.jpg", ".jpg"),
        ("archive.tar.gz", ".gz"),
        ("plain", ""),
        (".hidden", ".hidden"),
        ("ends.", "."),
        ("", ""),
        ("a.b.", "."),
    ] {
        assert_eq!(text(extension_of(&chars_of(name))), ext, "{:?}", name);
    }
}

#[test]
fn an_entry_lies_in_its_folder() {
    for (folder, name, path) in [
        ("dir", "a", "dir/a"),
        ("dir/", "a", "dir/a"),
        ("", "a", "a"),
        ("/", "a", "/a"),
        ("a/b", "c.d", "a/b/c.d"),
    ] {
        assert_eq!(text(entry_path_of(&chars_of(folder), &chars_of(name))), path);
    }
}

#[test]
fn the_last_occurrence_is_found() {
    assert_eq!(find_last(&chars_of("a.b.c"), '.'), Some(3));
    assert_eq!(find_last(&chars_of(".abc"), '.'), Some(0));
    assert_eq!(find_last(&chars_of("abc"), '.'), None);
    assert_eq!(find_last(&chars_of(""), '.'), None);
}

#[test]
fn characters_are_cut_joined_and_told_apart() {
    let chars = chars_of("héllo wörld");
    assert_eq!(text(slice_of(&chars, 1, 5)), "éllo");
    assert_eq!(text(slice_of(&chars, 4, 4)), "");
    let mut out = chars_of("ab");
    push_all(&mut out, &chars_of("cd"));
    push_str(&mut out, "éf");
    assert_eq!(text(out.clone()), "abcdéf");
    assert!(spells(&out, "abcdéf"));
    assert!(!spells(&out, "abcdef"));
    assert!(!spells(&out, "abcdé"));
    assert!(spells(&Vec::new(), ""));
}

#[test]
fn default_settings() {
    let args = Arguments::default();
    assert_eq!(args.folder, "");
    assert_eq!(args.prefix, "");
    assert_eq!((args.origin, args.padding), (0, 0));
    assert!(!args.directory && !args.verbose && !args.dry_run);
    assert_eq!(args.padding_direction, rena::PaddingDirection::Left);
    assert!(args.match_regex.is_none() && args.match_rename.is_none());
}
