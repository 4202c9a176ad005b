use fss::config::{lists_children, Config, SearchMode};
use fss::counter::EntryCounter;
use fss::render::render_entry;
use fss::report::{scan_path_init, search_path_init};
use fss::scan::scan_path;
use fss::size::compute_size;
use fss::tree::{weight_within, Entry, EntryKind, Listing, Meta, SpecialKind};

fn cfg() -> Config {
    Config {
        recursive: false,
        max_depth: 0,
        permissions: false,
        modified: false,
        absolute: false,
        files: false,
        symlinks: false,
        special: false,
        dir_size: false,
        errors: false,
    }
}

fn meta(kind: EntryKind, len: u64) -> Meta {
    Meta { kind, len, mode: 0o644, modified: None, target_is_dir: false }
}

fn entry(parent: &str, name: &str, kind: EntryKind, len: u64, children: Listing) -> Entry {
    let path = format!("{}/{}", parent, name);
    Entry {
        resolved: Some(format!("/abs{}", &path[1..])),
        path,
        name: Some(name.to_string()),
        meta: Some(meta(kind, len)),
        children,
    }
}

fn file(parent: &str, name: &str, len: u64) -> Entry {
    entry(parent, name, EntryKind::RegularFile, len, Listing::Unlisted)
}

fn dir(parent: &str, name: &str, entries: Vec<Entry>) -> Entry {
    entry(parent, name, EntryKind::Directory, 4096, Listing::Listed(entries))
}

fn link(parent: &str, name: &str) -> Entry {
    entry(parent, name, EntryKind::Symlink, 10, Listing::Unlisted)
}

fn unreadable(parent: &str, name: &str) -> Entry {
    Entry {
        path: format!("{}/{}", parent, name),
        name: Some(name.to_string()),
        resolved: None,
        meta: None,
        children: Listing::Unlisted,
    }
}

/// Three files, one symlink and two empty subdirectories.
fn sample() -> Listing {
    Listing::Listed(vec![
        file(".", "a.txt", 100),
        file(".", "b.txt", 400),
        dir(".", "sub1", vec![]),
        link(".", "l"),
        file(".", "c.bin", 1000),
        dir(".", "sub2", vec![]),
    ])
}

#[test]
fn scan_summary_of_three_files_one_symlink_two_dirs() {
    let rep = scan_path_init(&cfg(), ".", &sample()).unwrap();
    let expected: Vec<String> = vec![
        format!("{:>20}    <sub1>", ""),
        format!("{:>20}    <sub2>", ""),
        format!("{:>20}    <3 files>", ""),
        format!("{:>20}    <1 symlinks>", ""),
        String::new(),
        "Summary of \".\"".to_string(),
        "<3 files>".to_string(),
        "<1 symlinks>".to_string(),
        "<0 special files>".to_string(),
        "<2 subdirectories>".to_string(),
        "<6 total entries>".to_string(),
        String::new(),
    ];
    assert_eq!(rep.lines, expected);
    assert!(rep.errors.is_empty());
}

#[test]
fn counts_do_not_depend_on_display_flags() {
    let mut shown = cfg();
    shown.files = true;
    shown.symlinks = true;
    shown.special = true;
    for c in [cfg(), shown] {
        let mut init = EntryCounter::new();
        let mut full = EntryCounter::new();
        let mut lines = Vec::new();
        let mut errors = Vec::new();
        assert!(scan_path(&mut init, &mut full, &c, 0, &sample(), &mut lines, &mut errors).is_none());
        assert_eq!(init.get_file_cnt(), 3);
        assert_eq!(init.get_symlink_cnt(), 1);
        assert_eq!(init.get_special_cnt(), 0);
        assert_eq!(init.get_dir_cnt(), 2);
        assert_eq!(init.get_entry_cnt(), 6);
    }
}

#[test]
fn unshowable_entry_is_not_counted() {
    let mut c = cfg();
    c.files = true;
    let mut f = file(".", "gone", 5);
    f.name = None;
    let l = Listing::Listed(vec![f, file(".", "here", 7)]);
    let mut init = EntryCounter::new();
    let mut full = EntryCounter::new();
    let mut lines = Vec::new();
    let mut errors = Vec::new();
    assert!(scan_path(&mut init, &mut full, &c, 0, &l, &mut lines, &mut errors).is_none());
    assert_eq!(init.get_file_cnt(), 1);
    assert_eq!(lines, vec![format!("{:>20}    here", "7")]);
}

#[test]
fn hidden_files_line_shows_their_bytes() {
    let mut c = cfg();
    c.dir_size = true;
    let rep = scan_path_init(&c, ".", &sample()).unwrap();
    assert_eq!(rep.lines[0], format!("{:>20}    <sub1>", "0"));
    assert_eq!(rep.lines[2], format!("{:>20}    <3 files>", "1,500"));
    assert_eq!(rep.lines[3], format!("{:>20}    <1 symlinks>", "-"));
}

#[test]
fn absolute_mode_has_no_summary_lines() {
    let mut c = cfg();
    c.absolute = true;
    let rep = scan_path_init(&c, ".", &sample()).unwrap();
    assert_eq!(rep.lines[0], format!("{:>20}    </abs/sub1>", ""));
    assert_eq!(rep.lines[1], format!("{:>20}    </abs/sub2>", ""));
    assert_eq!(rep.lines[2], "");
}

#[test]
fn files_and_symlinks_listed_one_by_one() {
    let mut c = cfg();
    c.files = true;
    c.symlinks = true;
    let rep = scan_path_init(&c, ".", &sample()).unwrap();
    assert_eq!(rep.lines[0], format!("{:>20}    a.txt", "100"));
    assert_eq!(rep.lines[3], format!("{:>20}    l -> /abs/l", "SYMLINK"));
    assert_eq!(rep.lines[4], format!("{:>20}    c.bin", "1,000"));
}

fn chain(depth: usize) -> Listing {
    let mut l = Listing::Listed(vec![file(".", "leaf", 1)]);
    for i in (0..depth).rev() {
        l = Listing::Listed(vec![entry(".", &format!("d{}", i), EntryKind::Directory, 0, l)]);
    }
    l
}

fn total_after_scan(c: &Config, l: &Listing) -> u64 {
    let mut init = EntryCounter::new();
    let mut full = EntryCounter::new();
    let mut lines = Vec::new();
    let mut errors = Vec::new();
    assert!(scan_path(&mut init, &mut full, c, 0, l, &mut lines, &mut errors).is_none());
    full.get_entry_cnt()
}

#[test]
fn depth_limit_two_stops_below_grandchildren() {
    let mut c = cfg();
    c.recursive = true;
    c.max_depth = 2;
    // d0 (level 0), d1 (level 1), d2 (level 2); d3 and the leaf lie deeper.
    assert_eq!(total_after_scan(&c, &chain(5)), 3);
}

#[test]
fn no_depth_limit_reaches_everything() {
    let mut c = cfg();
    c.recursive = true;
    assert_eq!(total_after_scan(&c, &chain(5)), 6);
    c.recursive = false;
    assert_eq!(total_after_scan(&c, &chain(5)), 1);
}

#[test]
fn nested_lines_are_indented_by_level() {
    let mut c = cfg();
    c.recursive = true;
    let rep = scan_path_init(&c, ".", &chain(2)).unwrap();
    assert_eq!(rep.lines[0], format!("{:>20}    <d0>", ""));
    assert_eq!(rep.lines[1], format!("{:>20}        <d1>", ""));
    assert_eq!(rep.lines[2], format!("{:>20}            <1 files>", ""));
    assert_eq!(rep.lines[4], "Summary of \".\"");
    assert_eq!(rep.lines[11], "Including subdirectories");
    assert_eq!(rep.lines[16], "<3 total entries>");
}

#[test]
fn unreadable_subdirectory_is_reported_and_skipped() {
    let mut c = cfg();
    c.recursive = true;
    c.errors = true;
    let l = Listing::Listed(vec![
        entry(".", "locked", EntryKind::Directory, 0, Listing::Failed("Permission denied".to_string())),
        file(".", "x", 1),
    ]);
    let rep = scan_path_init(&c, ".", &l).unwrap();
    assert_eq!(rep.errors, vec!["Error while iterating over \"./locked\"\nPermission denied".to_string()]);
    assert_eq!(rep.lines[1], format!("{:>20}    <1 files>", ""));
}

#[test]
fn unreadable_root_is_reported_only_on_the_error_stream() {
    let l = Listing::Failed("No such file".to_string());
    let rep = scan_path_init(&cfg(), "/nope", &l).unwrap();
    assert!(rep.lines.is_empty());
    assert!(rep.errors.is_empty());
    let mut c = cfg();
    c.errors = true;
    let rep = scan_path_init(&c, "/nope", &l).unwrap();
    assert!(rep.lines.is_empty());
    assert_eq!(rep.errors, vec!["Error while iterating over \"/nope\"\nNo such file".to_string()]);
}

#[test]
fn size_skips_unreadable_entries_and_symlinks() {
    let with = Listing::Listed(vec![file(".", "a", 10), unreadable(".", "b"), link(".", "l"), dir(".", "d", vec![file("./d", "c", 5)])]);
    let without = Listing::Listed(vec![file(".", "a", 10), link(".", "l"), dir(".", "d", vec![file("./d", "c", 5)])]);
    let p = ".".to_string();
    assert_eq!(compute_size(&p, &with).ok(), Some(15));
    assert_eq!(compute_size(&p, &without).ok(), Some(15));
}

#[test]
fn size_fails_on_unreadable_subdirectory() {
    let l = Listing::Listed(vec![
        file(".", "a", 10),
        dir(".", "d", vec![entry("./d", "e", EntryKind::Directory, 0, Listing::Failed("denied".to_string()))]),
    ]);
    let f = compute_size(&".".to_string(), &l).err().unwrap();
    assert_eq!(f.path, "./d/e");
    assert_eq!(f.message, "denied");
}

#[test]
fn directory_size_error_is_shown_as_error() {
    let mut c = cfg();
    c.dir_size = true;
    c.errors = true;
    let d = entry(".", "d", EntryKind::Directory, 0, Listing::Failed("denied".to_string()));
    let mut errors = Vec::new();
    let line = render_entry(&c, &d, 1, &mut errors).unwrap();
    assert_eq!(line, format!("{:>20}        <d>", "ERROR"));
    assert_eq!(errors, vec!["Error while traversing ./d while calculating size of directory ./d\ndenied".to_string()]);
}

#[test]
fn special_and_permission_columns() {
    let mut c = cfg();
    c.permissions = true;
    c.absolute = true;
    let s = entry(".", "sock", EntryKind::Special(SpecialKind::Socket), 0, Listing::Unlisted);
    let mut errors = Vec::new();
    assert_eq!(render_entry(&c, &s, 0, &mut errors).unwrap(), format!("rw-r--r--   {:>20}    /abs/sock", "SOCKET"));
}

#[test]
fn missing_time_drops_the_entry() {
    let mut c = cfg();
    c.modified = true;
    let f = file(".", "a", 1);
    let mut errors = Vec::new();
    assert!(render_entry(&c, &f, 0, &mut errors).is_none());
    let mut g = file(".", "a", 1);
    g.meta.as_mut().unwrap().modified = Some("Jan 05 2024  13:45".to_string());
    assert_eq!(render_entry(&c, &g, 0, &mut errors).unwrap(), format!("{:>20}{:>20}    a", "Jan 05 2024  13:45", "1"));
}

#[test]
fn search_finds_by_mode_and_counts_everything() {
    let mut c = cfg();
    c.files = true;
    c.recursive = true;
    let l = Listing::Listed(vec![
        file(".", "foo.txt", 3),
        file(".", "foo.png", 4),
        dir(".", "sub", vec![file("./sub", "myfoobar", 1)]),
    ]);
    let rep = search_path_init(&c, SearchMode::Stem, "foo", ".", &l).unwrap();
    assert_eq!(rep.lines[0], format!("{:>20}    /abs/foo.txt", "3"));
    assert_eq!(rep.lines[1], format!("{:>20}    /abs/foo.png", "4"));
    assert_eq!(rep.lines[2], "");
    assert_eq!(rep.lines[3], "Summary of matching entries");
    assert_eq!(rep.lines[4], "<2 files>");
    assert_eq!(rep.lines[8], "<2 total entries>");
    assert_eq!(rep.lines[10], "Summary of traversal of \".\"");
    assert_eq!(rep.lines[11], "<3 files>");
    assert_eq!(rep.lines[14], "<1 subdirectories>");
    let rep = search_path_init(&c, SearchMode::Contains, "foo", ".", &l).unwrap();
    assert_eq!(rep.lines[2], format!("{:>20}    /abs/sub/myfoobar", "1"));
    let rep = search_path_init(&c, SearchMode::Exact, "foo.txt", ".", &l).unwrap();
    assert_eq!(rep.lines[1], "");
}

#[test]
fn search_of_unreadable_root_reports_only_with_errors() {
    let mut c = cfg();
    let l = Listing::Failed("gone".to_string());
    let rep = search_path_init(&c, SearchMode::Exact, "x", "r", &l).unwrap();
    assert!(rep.lines.is_empty() && rep.errors.is_empty());
    c.errors = true;
    let rep = search_path_init(&c, SearchMode::Exact, "x", "r", &l).unwrap();
    assert_eq!(rep.errors, vec!["Error while iterating over \"r\"\ngone".to_string()]);
}

#[test]
fn weight_check_and_listing_rule() {
    assert_eq!(weight_within(&sample(), u64::MAX), Some(6 + 1500));
    assert_eq!(weight_within(&sample(), 100), None);
    let huge = Listing::Listed(vec![file(".", "a", u64::MAX), file(".", "b", 1)]);
    assert!(scan_path_init(&cfg(), ".", &huge).is_none());
    let mut c = cfg();
    assert!(!lists_children(&c, 0));
    c.recursive = true;
    c.max_depth = 1;
    assert!(lists_children(&c, 0));
    assert!(!lists_children(&c, 1));
    c.dir_size = true;
    assert!(lists_children(&c, 7));
}
