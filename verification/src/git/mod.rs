//! The state of a directory under version control, read from what the
//! `git` program printed. The manager says how `git` is to be run and makes
//! sense of its output; running it is left to the caller.

use vstd::prelude::*;
use vstd::string::*;
use crate::editor::lines::{lines_of, split_lines};
use crate::utils::text::texts;

verus! {

/// How the run of a command ended.
#[derive(Debug)]
pub enum CommandOutcome {
    /// The command could not be started; the message of the error.
    NotRun(String),
    /// The command ran: whether it ended well, and what it printed.
    Finished { success: bool, output: String },
}

/// What happened to a file.
#[derive(Debug, Clone, Copy, PartialEq, Eq, Structural)]
pub enum StatusType {
    Modified,
    Added,
    Deleted,
    Renamed,
    Untracked,
    Ignored,
    Unmodified,
}

/// The status of one file: what happened to it, and whether that is staged
/// for the next commit.
#[derive(Debug, Clone)]
pub struct FileStatus {
    pub path: String,
    pub status: StatusType,
    pub staged: bool,
}

/// A file's status as contracts see it.
pub struct StatusEntry {
    pub path: Seq<char>,
    pub status: StatusType,
    pub staged: bool,
}

impl View for FileStatus {
    type V = StatusEntry;

    open spec fn view(&self) -> StatusEntry {
        StatusEntry { path: self.path@, status: self.status, staged: self.staged }
    }
}

/// The statuses of `v` as contracts see them.
pub open spec fn entries(v: Seq<FileStatus>) -> Seq<StatusEntry> {
    Seq::new(v.len(), |i: int| v[i]@)
}

/// What the two status letters of a line say. The letter of the index
/// decides where it says anything; only then the letter of the work tree
/// is looked at.
pub open spec fn status_of(index: char, worktree: char) -> (StatusType, bool) {
    if index == 'A' {
        (StatusType::Added, true)
    } else if index == 'M' {
        (StatusType::Modified, true)
    } else if index == 'D' {
        (StatusType::Deleted, true)
    } else if index == 'R' {
        (StatusType::Renamed, true)
    } else if index == '?' {
        (StatusType::Untracked, false)
    } else if index == '!' {
        (StatusType::Ignored, false)
    } else if worktree == 'M' {
        (StatusType::Modified, false)
    } else if worktree == 'D' {
        (StatusType::Deleted, false)
    } else {
        (StatusType::Unmodified, false)
    }
}

/// What one line of the short status format says: nothing if it has fewer
/// than three characters or speaks of an unmodified file; else the path
/// from the fourth character on, with what the first two characters say.
pub open spec fn entry_of_line(line: Seq<char>) -> Option<StatusEntry> {
    if line.len() < 3 || status_of(line[0], line[1]).0 == StatusType::Unmodified {
        None
    } else {
        Some(
            StatusEntry {
                path: line.skip(3),
                status: status_of(line[0], line[1]).0,
                staged: status_of(line[0], line[1]).1,
            },
        )
    }
}

/// What the lines of a status listing say, line by line.
pub open spec fn entries_of_lines(lines: Seq<Seq<char>>) -> Seq<StatusEntry>
    decreases lines.len(),
{
    if lines.len() == 0 {
        Seq::empty()
    } else {
        let before = entries_of_lines(lines.drop_last());
        match entry_of_line(lines.last()) {
            Some(entry) => before.push(entry),
            None => before,
        }
    }
}

/// The lines that are not empty, in their order.
pub open spec fn filled_lines(lines: Seq<Seq<char>>) -> Seq<Seq<char>>
    decreases lines.len(),
{
    if lines.len() == 0 {
        Seq::empty()
    } else if lines.last().len() > 0 {
        filled_lines(lines.drop_last()).push(lines.last())
    } else {
        filled_lines(lines.drop_last())
    }
}

/// What the two status letters of a line say.
fn read_letters(index: char, worktree: char) -> (r: (StatusType, bool))
    ensures
        r == status_of(index, worktree),
{
    if index == 'A' {
        (StatusType::Added, true)
    } else if index == 'M' {
        (StatusType::Modified, true)
    } else if index == 'D' {
        (StatusType::Deleted, true)
    } else if index == 'R' {
        (StatusType::Renamed, true)
    } else if index == '?' {
        (StatusType::Untracked, false)
    } else if index == '!' {
        (StatusType::Ignored, false)
    } else if worktree == 'M' {
        (StatusType::Modified, false)
    } else if worktree == 'D' {
        (StatusType::Deleted, false)
    } else {
        (StatusType::Unmodified, false)
    }
}

/// Reads a status listing in the short format.
pub fn parse_status(output: &str) -> (statuses: Vec<FileStatus>)
    ensures
        entries(statuses@) == entries_of_lines(split_lines(output@)),
{
    let lines = lines_of(output);
    let mut statuses: Vec<FileStatus> = Vec::new();
    let mut i: usize = 0;
    while i < lines.len()
        invariant
            0 <= i <= lines.len(),
            entries(statuses@) == entries_of_lines(texts(lines@).take(i as int)),
        decreases lines.len() - i,
    {
        let line = lines[i].as_str();
        let len = line.unicode_len();
        proof {
            let all = texts(lines@);
            assert(all.take(i + 1).drop_last() == all.take(i as int));
            assert(all.take(i + 1).last() == line@);
        }
        if len >= 3 {
            let (status, staged) = read_letters(line.get_char(0), line.get_char(1));
            match status {
                StatusType::Unmodified => {},
                _ => {
                    let path = String::from_str(line.substring_char(3, len));
                    assert(path@ == line@.skip(3));
                    let ghost before = entries(statuses@);
                    statuses.push(FileStatus { path, status, staged });
                    assert(entries(statuses@) =~= before.push(entry_of_line(line@)->0));
                },
            }
        }
        i += 1;
    }
    assert(texts(lines@).take(i as int) == texts(lines@));
    statuses
}

/// The lines of `output` that are not empty.
pub fn parse_branches(output: &str) -> (branches: Vec<String>)
    ensures
        texts(branches@) == filled_lines(split_lines(output@)),
{
    let lines = lines_of(output);
    let mut branches: Vec<String> = Vec::new();
    let mut i: usize = 0;
    while i < lines.len()
        invariant
            0 <= i <= lines.len(),
            texts(branches@) == filled_lines(texts(lines@).take(i as int)),
        decreases lines.len() - i,
    {
        let line = lines[i].as_str();
        proof {
            let all = texts(lines@);
            assert(all.take(i + 1).drop_last() == all.take(i as int));
            assert(all.take(i + 1).last() == line@);
        }
        if line.unicode_len() > 0 {
            let ghost before = texts(branches@);
            branches.push(String::from_str(line));
            assert(texts(branches@) =~= before.push(line@));
        }
        i += 1;
    }
    assert(texts(lines@).take(i as int) == texts(lines@));
    branches
}

/// A directory that may lie in a git work tree.
pub struct GitManager {
    path: String,
    is_repo: bool,
}

/// A manager as contracts see it.
pub struct GitState {
    pub path: Seq<char>,
    pub is_repo: bool,
}

impl View for GitManager {
    type V = GitState;

    closed spec fn view(&self) -> GitState {
        GitState { path: self.path@, is_repo: self.is_repo }
    }
}

/// The arguments that make `git` work in the directory `path` and do what
/// `rest` says.
pub open spec fn git_args(path: Seq<char>, rest: Seq<Seq<char>>) -> Seq<Seq<char>> {
    seq!["-C"@, path] + rest
}

/// What a command that was needed gave: its output if it ran and ended
/// well, else the message of the error that started it not, or `failure`
/// where it ended badly.
pub open spec fn output_or(outcome: CommandOutcome, failure: Seq<char>) -> Result<
    Seq<char>,
    Seq<char>,
> {
    match outcome {
        CommandOutcome::NotRun(message) => Err(message@),
        CommandOutcome::Finished { success, output } => if success {
            Ok(output@)
        } else {
            Err(failure)
        },
    }
}

/// What a manager makes of how a command ended: outside a work tree an
/// error that says so, whatever the command did; inside, what the command
/// gave.
pub open spec fn answer(state: GitState, outcome: CommandOutcome, failure: Seq<char>) -> Result<
    Seq<char>,
    Seq<char>,
> {
    if state.is_repo {
        output_or(outcome, failure)
    } else {
        Err("Not a git repository"@)
    }
}

fn arguments(path: &str, rest: Vec<String>) -> (args: Vec<String>)
    ensures
        texts(args@) == git_args(path@, texts(rest@)),
{
    let mut args: Vec<String> = Vec::new();
    args.push(String::from_str("-C"));
    args.push(String::from_str(path));
    let ghost head = texts(args@);
    let mut rest = rest;
    let ghost tail = texts(rest@);
    args.append(&mut rest);
    assert(texts(args@) =~= head + tail);
    assert(head =~= seq!["-C"@, path@]);
    args
}

impl GitManager {
    /// The arguments with which `git` tells whether `path` lies in a work
    /// tree.
    pub fn probe_args(path: &str) -> (args: Vec<String>)
        ensures
            texts(args@) == git_args(path@, seq!["rev-parse"@, "--is-inside-work-tree"@]),
    {
        let mut rest: Vec<String> = Vec::new();
        rest.push(String::from_str("rev-parse"));
        rest.push(String::from_str("--is-inside-work-tree"));
        assert(texts(rest@) =~= seq!["rev-parse"@, "--is-inside-work-tree"@]);
        arguments(path, rest)
    }

    /// A manager for the directory at `path`, given how the probe ended:
    /// the directory lies in a work tree if the probe ran and ended well.
    pub fn new(path: String, probe: CommandOutcome) -> (manager: GitManager)
        ensures
            manager@.path == path@,
            manager@.is_repo == (probe matches CommandOutcome::Finished { success, .. } && success),
    {
        let is_repo = match probe {
            CommandOutcome::Finished { success, .. } => success,
            CommandOutcome::NotRun(_) => false,
        };
        GitManager { path, is_repo }
    }

    /// Whether the directory lies in a git work tree.
    pub fn is_repo(&self) -> (yes: bool)
        ensures
            yes == self@.is_repo,
    {
        self.is_repo
    }

    /// The arguments with which `git` lists the state of the work tree.
    pub fn status_args(&self) -> (args: Vec<String>)
        ensures
            texts(args@) == git_args(self@.path, seq!["status"@, "--porcelain"@]),
    {
        let mut rest: Vec<String> = Vec::new();
        rest.push(String::from_str("status"));
        rest.push(String::from_str("--porcelain"));
        assert(texts(rest@) =~= seq!["status"@, "--porcelain"@]);
        arguments(self.path.as_str(), rest)
    }

    /// The arguments with which `git` shows the changes, of one file or of
    /// all.
    pub fn diff_args(&self, file_path: Option<&str>) -> (args: Vec<String>)
        ensures
            texts(args@) == git_args(
                self@.path,
                match file_path {
                    Some(file) => seq!["diff"@, "--"@, file@],
                    None => seq!["diff"@],
                },
            ),
    {
        let mut rest: Vec<String> = Vec::new();
        rest.push(String::from_str("diff"));
        match file_path {
            Some(file) => {
                rest.push(String::from_str("--"));
                rest.push(String::from_str(file));
                assert(texts(rest@) =~= seq!["diff"@, "--"@, file@]);
            },
            None => {
                assert(texts(rest@) =~= seq!["diff"@]);
            },
        }
        arguments(self.path.as_str(), rest)
    }

    /// The arguments with which `git` lists the branches by their short
    /// names.
    pub fn branch_args(&self) -> (args: Vec<String>)
        ensures
            texts(args@) == git_args(self@.path, seq!["branch"@, "--format=%(refname:short)"@]),
    {
        let mut rest: Vec<String> = Vec::new();
        rest.push(String::from_str("branch"));
        rest.push(String::from_str("--format=%(refname:short)"));
        assert(texts(rest@) =~= seq!["branch"@, "--format=%(refname:short)"@]);
        arguments(self.path.as_str(), rest)
    }

    /// What a command gave, for a manager that needs it: outside a work
    /// tree nothing is asked of `git`, whatever the outcome says.
    fn needed_output(&self, outcome: CommandOutcome, failure: &str) -> (r: Result<String, String>)
        ensures
            match r {
                Ok(text) => answer(self@, outcome, failure@) == Ok::<Seq<char>, Seq<char>>(text@),
                Err(e) => answer(self@, outcome, failure@) == Err::<Seq<char>, Seq<char>>(e@),
            },
    {
        if !self.is_repo {
            return Err(String::from_str("Not a git repository"));
        }
        match outcome {
            CommandOutcome::NotRun(message) => Err(message),
            CommandOutcome::Finished { success, output } => if success {
                Ok(output)
            } else {
                Err(String::from_str(failure))
            },
        }
    }

    /// The files that are not unmodified, read from how the status command
    /// ended. Outside a work tree, and where the command did not run or
    /// ended badly, the error says so.
    pub fn get_status(&self, outcome: CommandOutcome) -> (r: Result<Vec<FileStatus>, String>)
        ensures
            match r {
                Ok(statuses) => answer(self@, outcome, "Git command failed"@) matches Ok(text)
                    && entries(statuses@) == entries_of_lines(split_lines(text)),
                Err(e) => answer(self@, outcome, "Git command failed"@) == Err::<
                    Seq<char>,
                    Seq<char>,
                >(e@),
            },
    {
        match self.needed_output(outcome, "Git command failed") {
            Ok(text) => Ok(parse_status(text.as_str())),
            Err(e) => Err(e),
        }
    }

    /// The changes as `git` printed them, read from how the diff command
    /// ended.
    pub fn get_diff(&self, outcome: CommandOutcome) -> (r: Result<String, String>)
        ensures
            match r {
                Ok(text) => answer(self@, outcome, "Git diff failed"@) == Ok::<
                    Seq<char>,
                    Seq<char>,
                >(text@),
                Err(e) => answer(self@, outcome, "Git diff failed"@) == Err::<
                    Seq<char>,
                    Seq<char>,
                >(e@),
            },
    {
        self.needed_output(outcome, "Git diff failed")
    }

    /// The names of the branches, read from how the branch command ended.
    pub fn get_branches(&self, outcome: CommandOutcome) -> (r: Result<Vec<String>, String>)
        ensures
            match r {
                Ok(branches) => answer(self@, outcome, "Git branch command failed"@) matches Ok(
                    text,
                ) && texts(branches@) == filled_lines(split_lines(text)),
                Err(e) => answer(self@, outcome, "Git branch command failed"@) == Err::<
                    Seq<char>,
                    Seq<char>,
                >(e@),
            },
    {
        match self.needed_output(outcome, "Git branch command failed") {
            Ok(text) => Ok(parse_branches(text.as_str())),
            Err(e) => Err(e),
        }
    }
}

} // verus!
