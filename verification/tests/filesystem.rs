use file_browser::filesystem::order::{may_precede, sort_entries};
use file_browser::filesystem::{DirNavigator, FileEntry, SortBy, Timestamp};

fn file(name: &str, size: u64) -> FileEntry {
    let extension = name.rsplit_once('.').filter(|(stem, _)| !stem.is_empty()).map(|(_, e)| e.to_string());
    FileEntry::new(name.to_string(), format!("/dir/{}", name), false, size, None, extension)
}

fn dir(name: &str) -> FileEntry {
    FileEntry::new(name.to_string(), format!("/dir/{}", name), true, 0, None, None)
}

fn stamped(name: &str, secs: i64, nanos: u32) -> FileEntry {
    let mut entry = file(name, 1);
    entry.modified = Some(Timestamp { secs, nanos });
    entry
}

fn names(entries: &Vec<FileEntry>) -> Vec<&str> {
    entries.iter().map(|e| e.name.as_str()).collect()
}

fn listed(entries: Vec<FileEntry>) -> Vec<Option<FileEntry>> {
    entries.into_iter().map(Some).collect()
}

#[test]
fn hidden_follows_from_the_name() {
    assert!(file(".profile", 1).is_hidden);
    assert!(dir(".git").is_hidden);
    assert!(!file("a.txt", 1).is_hidden);
    assert!(!file("", 1).is_hidden);
    assert!(!file("a.b.c", 1).is_hidden);
}

#[test]
fn new_entry_keeps_what_it_is_given() {
    let entry = FileEntry::new(
        "a.txt".to_string(),
        "/x/a.txt".to_string(),
        false,
        42,
        Some(Timestamp { secs: 7, nanos: 9 }),
        Some("txt".to_string()),
    );
    assert_eq!(entry.name, "a.txt");
    assert_eq!(entry.path, "/x/a.txt");
    assert!(!entry.is_dir);
    assert_eq!(entry.size, 42);
    assert_eq!(entry.modified, Some(Timestamp { secs: 7, nanos: 9 }));
    assert_eq!(entry.extension.as_deref(), Some("txt"));
}

#[test]
fn sorted_by_size_largest_first() {
    let mut entries = vec![file("a", 5), file("b", 100), file("c", 0), file("d", 100), file("e", 7)];
    sort_entries(&mut entries, SortBy::Size);
    assert_eq!(names(&entries), vec!["b", "d", "e", "a", "c"]);
    for pair in entries.windows(2) {
        assert!(pair[0].size >= pair[1].size);
    }
}

#[test]
fn sorted_by_name_without_regard_to_case() {
    let mut entries = vec![file("B.txt", 1), file("a.txt", 1), file("C.txt", 1), file("b.md", 1)];
    sort_entries(&mut entries, SortBy::Name);
    assert_eq!(names(&entries), vec!["a.txt", "b.md", "B.txt", "C.txt"]);
}

#[test]
fn equal_keys_keep_their_order() {
    let mut entries = vec![file("x", 1), file("B", 3), file("b", 2), file("a", 1), file("B", 1)];
    sort_entries(&mut entries, SortBy::Name);
    let sizes: Vec<(String, u64)> = entries.iter().map(|e| (e.name.clone(), e.size)).collect();
    assert_eq!(
        sizes,
        vec![
            ("a".to_string(), 1),
            ("B".to_string(), 3),
            ("b".to_string(), 2),
            ("B".to_string(), 1),
            ("x".to_string(), 1),
        ]
    );
}

#[test]
fn sorted_by_time_latest_first_and_unknown_last() {
    let mut entries = vec![
        stamped("old", 10, 0),
        file("none", 1),
        stamped("new", 20, 5),
        stamped("newer", 20, 6),
        stamped("before_epoch", -5, 999),
    ];
    sort_entries(&mut entries, SortBy::Modified);
    assert_eq!(names(&entries), vec!["newer", "new", "old", "before_epoch", "none"]);
}

#[test]
fn sorted_by_type_directories_first_then_by_extension() {
    let mut entries = vec![
        file("z.txt", 1),
        file("noext", 1),
        dir("sub"),
        file("a.rs", 1),
        file("b.Rs", 1),
        dir("other"),
        file("c.md", 1),
    ];
    sort_entries(&mut entries, SortBy::Type);
    assert_eq!(names(&entries), vec!["sub", "other", "noext", "b.Rs", "c.md", "a.rs", "z.txt"]);
}

#[test]
fn an_empty_extension_comes_after_none() {
    let mut with_empty = file("dot.", 1);
    with_empty.extension = Some(String::new());
    let without = file("plain", 1);
    assert!(may_precede(SortBy::Type, &without, &with_empty));
    assert!(!may_precede(SortBy::Type, &with_empty, &without));
    assert!(may_precede(SortBy::Type, &with_empty, &file("a.a", 1)));
}

#[test]
fn may_precede_is_the_order_of_each_key() {
    assert!(may_precede(SortBy::Size, &file("a", 2), &file("b", 1)));
    assert!(may_precede(SortBy::Size, &file("a", 1), &file("b", 1)));
    assert!(!may_precede(SortBy::Size, &file("a", 1), &file("b", 2)));
    assert!(may_precede(SortBy::Name, &file("abc", 1), &file("ABD", 1)));
    assert!(may_precede(SortBy::Name, &file("ab", 1), &file("abc", 1)));
    assert!(!may_precede(SortBy::Name, &file("b", 1), &file("A", 1)));
    assert!(may_precede(SortBy::Modified, &stamped("a", 2, 0), &stamped("b", 1, 0)));
    assert!(!may_precede(SortBy::Modified, &file("a", 1), &stamped("b", 1, 0)));
    assert!(may_precede(SortBy::Type, &dir("d"), &file("f", 1)));
    assert!(!may_precede(SortBy::Type, &file("f", 1), &dir("d")));
}

#[test]
fn a_new_navigator_lists_by_name_without_hidden_entries() {
    let nav = DirNavigator::new(
        "/dir".to_string(),
        listed(vec![file("b.txt", 1), file(".hidden", 1), file("A.txt", 2), dir("sub")]),
    );
    assert_eq!(nav.current_path, "/dir");
    assert!(!nav.show_hidden);
    assert_eq!(nav.sort_by, SortBy::Name);
    assert!(nav.filter.is_none());
    assert_eq!(names(&nav.entries), vec!["A.txt", "b.txt", "sub"]);
}

#[test]
fn the_directory_itself_is_never_listed() {
    let mut own = dir("dir");
    own.path = "/dir".to_string();
    let nav = DirNavigator::new("/dir".to_string(), listed(vec![own, file("a", 1)]));
    assert_eq!(names(&nav.entries), vec!["a"]);
}

#[test]
fn unreadable_children_are_left_out() {
    let nav = DirNavigator::new("/dir".to_string(), vec![None, Some(file("a", 1)), None]);
    assert_eq!(names(&nav.entries), vec!["a"]);
    let empty = DirNavigator::new("/dir".to_string(), Vec::new());
    assert!(empty.entries.is_empty());
}

#[test]
fn the_name_decides_what_is_hidden() {
    let mut disguised = file(".secret", 1);
    disguised.is_hidden = false;
    let mut marked = file("plain", 1);
    marked.is_hidden = true;
    let nav = DirNavigator::new("/dir".to_string(), listed(vec![disguised, marked]));
    assert_eq!(names(&nav.entries), vec!["plain"]);
}

#[test]
fn hidden_entries_show_when_asked_for() {
    let mut nav = DirNavigator::new("/dir".to_string(), Vec::new());
    nav.show_hidden = true;
    nav.refresh(listed(vec![file("b", 1), file(".a", 1)]));
    assert_eq!(names(&nav.entries), vec![".a", "b"]);
}

#[test]
fn refresh_rebuilds_the_listing() {
    let mut nav = DirNavigator::new("/dir".to_string(), listed(vec![file("old", 1)]));
    nav.sort_by = SortBy::Size;
    nav.refresh(listed(vec![file("small", 1), file("big", 9)]));
    assert_eq!(names(&nav.entries), vec!["big", "small"]);
    nav.refresh(Vec::new());
    assert!(nav.entries.is_empty());
}

#[test]
fn search_filters_by_name_without_regard_to_case() {
    let mut nav = DirNavigator::new("/dir".to_string(), Vec::new());
    nav.search("REP", listed(vec![file("report.txt", 1), file("Rep.md", 1), file("other", 1)]));
    assert_eq!(nav.filter.as_deref(), Some("REP"));
    assert_eq!(names(&nav.entries), vec!["Rep.md", "report.txt"]);
}

#[test]
fn a_filter_that_no_name_holds_lists_nothing() {
    let mut nav = DirNavigator::new("/dir".to_string(), Vec::new());
    nav.search("zzz", listed(vec![file("a.txt", 1), file("b.txt", 1), dir("c")]));
    assert!(nav.entries.is_empty());
}

#[test]
fn the_filter_looks_at_the_name_only() {
    let mut nav = DirNavigator::new("/dir".to_string(), Vec::new());
    nav.search("dir", listed(vec![file("a.txt", 1)]));
    assert!(nav.entries.is_empty());
    nav.search("", listed(vec![file("a.txt", 1)]));
    assert_eq!(names(&nav.entries), vec!["a.txt"]);
}

#[test]
fn sort_uses_the_navigators_key() {
    let mut nav = DirNavigator::new(
        "/dir".to_string(),
        listed(vec![file("a", 1), file("b", 3), file("c", 2)]),
    );
    nav.sort_by = SortBy::Size;
    nav.sort();
    assert_eq!(names(&nav.entries), vec!["b", "c", "a"]);
    nav.sort_by = SortBy::Name;
    nav.sort();
    assert_eq!(names(&nav.entries), vec!["a", "b", "c"]);
}

#[test]
fn navigate_to_a_directory() {
    let mut nav = DirNavigator::new("/dir".to_string(), listed(vec![dir("sub")]));
    nav.navigate_to("/dir/sub", true, listed(vec![file("inner", 1)]));
    assert_eq!(nav.current_path, "/dir/sub");
    assert_eq!(names(&nav.entries), vec!["inner"]);
}

#[test]
fn navigate_to_a_file_changes_nothing() {
    let mut nav = DirNavigator::new("/dir".to_string(), listed(vec![file("a", 1)]));
    nav.navigate_to("/dir/a", false, listed(vec![file("ghost", 1)]));
    assert_eq!(nav.current_path, "/dir");
    assert_eq!(names(&nav.entries), vec!["a"]);
}

#[test]
fn navigate_up_goes_to_the_parent() {
    let mut nav = DirNavigator::new("/dir/sub".to_string(), listed(vec![file("inner", 1)]));
    nav.navigate_up(Some("/dir".to_string()), listed(vec![dir("sub"), file("a", 1)]));
    assert_eq!(nav.current_path, "/dir");
    assert_eq!(names(&nav.entries), vec!["a", "sub"]);
    nav.navigate_up(None, listed(vec![file("ghost", 1)]));
    assert_eq!(nav.current_path, "/dir");
    assert_eq!(names(&nav.entries), vec!["a", "sub"]);
}

#[test]
fn sort_keys_follow_each_other_in_a_circle() {
    assert_eq!(SortBy::Name.next(), SortBy::Size);
    assert_eq!(SortBy::Size.next(), SortBy::Modified);
    assert_eq!(SortBy::Modified.next(), SortBy::Type);
    assert_eq!(SortBy::Type.next(), SortBy::Name);
}
