use file_browser::git::{parse_branches, parse_status, CommandOutcome, FileStatus, GitManager, StatusType};

fn ran(success: bool, output: &str) -> CommandOutcome {
    CommandOutcome::Finished { success, output: output.to_string() }
}

fn repo() -> GitManager {
    GitManager::new("/work".to_string(), ran(true, "true\n"))
}

fn plain(statuses: Vec<FileStatus>) -> Vec<(String, StatusType, bool)> {
    statuses.into_iter().map(|s| (s.path, s.status, s.staged)).collect()
}

#[test]
fn a_work_tree_is_told_by_the_probe() {
    assert!(repo().is_repo());
    assert!(!GitManager::new("/tmp".to_string(), ran(false, "")).is_repo());
    assert!(!GitManager::new("/tmp".to_string(), CommandOutcome::NotRun("no git".to_string())).is_repo());
}

#[test]
fn arguments_for_git() {
    assert_eq!(GitManager::probe_args("/work"), vec!["-C", "/work", "rev-parse", "--is-inside-work-tree"]);
    assert_eq!(repo().status_args(), vec!["-C", "/work", "status", "--porcelain"]);
    assert_eq!(repo().diff_args(None), vec!["-C", "/work", "diff"]);
    assert_eq!(repo().diff_args(Some("a b.txt")), vec!["-C", "/work", "diff", "--", "a b.txt"]);
    assert_eq!(repo().branch_args(), vec!["-C", "/work", "branch", "--format=%(refname:short)"]);
}

#[test]
fn status_lines_are_read_by_their_letters() {
    let output = "A  added.txt\nM  staged.rs\n M changed.rs\nD  gone\n D missing\nR  old -> new\n?? fresh\n!! target/\n";
    assert_eq!(
        plain(parse_status(output)),
        vec![
            ("added.txt".to_string(), StatusType::Added, true),
            ("staged.rs".to_string(), StatusType::Modified, true),
            ("changed.rs".to_string(), StatusType::Modified, false),
            ("gone".to_string(), StatusType::Deleted, true),
            ("missing".to_string(), StatusType::Deleted, false),
            ("old -> new".to_string(), StatusType::Renamed, true),
            ("fresh".to_string(), StatusType::Untracked, false),
            ("target/".to_string(), StatusType::Ignored, false),
        ]
    );
}

#[test]
fn the_index_letter_comes_first() {
    assert_eq!(plain(parse_status("MD both")), vec![("both".to_string(), StatusType::Modified, true)]);
    assert_eq!(plain(parse_status("AM both")), vec![("both".to_string(), StatusType::Added, true)]);
    assert_eq!(plain(parse_status("?M odd")), vec![("odd".to_string(), StatusType::Untracked, false)]);
}

#[test]
fn short_and_unmodified_lines_are_skipped() {
    assert!(parse_status("").is_empty());
    assert!(parse_status("M \nA\n\n").is_empty());
    assert!(parse_status("   clean\nUU conflict\n").is_empty());
    assert_eq!(plain(parse_status("M  ")), vec![(String::new(), StatusType::Modified, true)]);
    assert_eq!(plain(parse_status(" M é.txt\r\n")), vec![("é.txt".to_string(), StatusType::Modified, false)]);
}

#[test]
fn status_needs_a_work_tree_and_a_good_run() {
    let outside = GitManager::new("/tmp".to_string(), ran(false, ""));
    assert_eq!(outside.get_status(ran(true, "M  a")).unwrap_err(), "Not a git repository");
    assert_eq!(repo().get_status(CommandOutcome::NotRun("spawn failed".to_string())).unwrap_err(), "spawn failed");
    assert_eq!(repo().get_status(ran(false, "M  a")).unwrap_err(), "Git command failed");
    assert_eq!(
        plain(repo().get_status(ran(true, "M  a\n")).unwrap()),
        vec![("a".to_string(), StatusType::Modified, true)]
    );
}

#[test]
fn diff_is_handed_through() {
    let outside = GitManager::new("/tmp".to_string(), CommandOutcome::NotRun("x".to_string()));
    assert_eq!(outside.get_diff(ran(true, "diff")).unwrap_err(), "Not a git repository");
    assert_eq!(repo().get_diff(CommandOutcome::NotRun("spawn failed".to_string())).unwrap_err(), "spawn failed");
    assert_eq!(repo().get_diff(ran(false, "")).unwrap_err(), "Git diff failed");
    assert_eq!(repo().get_diff(ran(true, "--- a\n+++ b\n")).unwrap(), "--- a\n+++ b\n");
}

#[test]
fn branches_are_the_lines_that_are_not_empty() {
    assert_eq!(parse_branches("main\n\nfeature/x\n"), vec!["main", "feature/x"]);
    assert!(parse_branches("").is_empty());
    let outside = GitManager::new("/tmp".to_string(), ran(false, ""));
    assert_eq!(outside.get_branches(ran(true, "main")).unwrap_err(), "Not a git repository");
    assert_eq!(repo().get_branches(ran(false, "")).unwrap_err(), "Git branch command failed");
    assert_eq!(repo().get_branches(CommandOutcome::NotRun("gone".to_string())).unwrap_err(), "gone");
    assert_eq!(repo().get_branches(ran(true, "main\ndev\n")).unwrap(), vec!["main", "dev"]);
}
