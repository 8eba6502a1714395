//! Previews of files: providers that each know some kinds of file, and the
//! chain that asks them in turn.
//!
//! No provider reads a file or runs a program. Whoever wants a preview
//! gathers the facts about the file first (its text, its size, what
//! external tools printed for it) and hands them in.

use vstd::prelude::*;
use vstd::string::*;
use crate::editor::lines::{lines_of, split_lines};
use crate::utils::text::{lowercase, lowercased, optional_text, same_text, texts};

pub mod code;
pub mod generic;
pub mod image;
pub mod laws;
pub mod manager;
pub mod markdown;
pub mod pdf;
pub mod text;

pub use generic::GenericPreview;
pub use manager::PreviewManager;

verus! {

/// What is shown for a file.
#[derive(Debug, Clone)]
pub enum PreviewContent {
    Text(String),
    Binary(String),
    Image(Vec<u8>),
    Error(String),
}

/// A preview as contracts see it.
pub enum Content {
    Text(Seq<char>),
    Binary(Seq<char>),
    Image(Seq<u8>),
    Error(Seq<char>),
}

impl View for PreviewContent {
    type V = Content;

    open spec fn view(&self) -> Content {
        match self {
            PreviewContent::Text(s) => Content::Text(s@),
            PreviewContent::Binary(s) => Content::Binary(s@),
            PreviewContent::Image(b) => Content::Image(b@),
            PreviewContent::Error(s) => Content::Error(s@),
        }
    }
}

/// What a provider gave as contracts see it: the preview, or the message of
/// its failure.
pub open spec fn outcome_view(outcome: Result<PreviewContent, String>) -> Result<
    Content,
    Seq<char>,
> {
    match outcome {
        Ok(content) => Ok(content@),
        Err(message) => Err(message@),
    }
}

/// A path with the parts that the platform's path rules find in it.
#[derive(Debug, Clone)]
pub struct FilePath {
    /// The path as it is written.
    pub text: String,
    /// The last component of the path, if it has one.
    pub file_name: Option<String>,
    /// What follows the last dot of the file name, if there is such a part.
    pub extension: Option<String>,
}

/// An external program to run, with its arguments.
#[derive(Debug, Clone)]
pub struct ToolRequest {
    pub program: String,
    pub args: Vec<String>,
}

/// How the run of an external program ended: what it printed if it was
/// found, started and ended well, and nothing otherwise.
#[derive(Debug, Clone)]
pub struct ToolReport {
    pub program: String,
    pub output: Option<String>,
}

/// What is known about a file when its preview is made.
#[derive(Debug)]
pub struct FileFacts {
    /// The file's size in bytes, or the message of the error that asking
    /// for it gave.
    pub size: Result<u64, String>,
    /// The file read as text, or the message of the error that reading it
    /// gave.
    pub text: Result<String, String>,
    /// The external programs that were run on the file.
    pub tools: Vec<ToolReport>,
}

/// What the first report on `program` says that it printed; nothing where
/// no report speaks of it.
pub open spec fn tool_output(tools: Seq<ToolReport>, program: Seq<char>) -> Option<Seq<char>>
    decreases tools.len(),
{
    if tools.len() == 0 {
        None
    } else if tools[0].program@ == program {
        optional_text(tools[0].output)
    } else {
        tool_output(tools.drop_first(), program)
    }
}

/// No external program printed anything for the file: none was run, or
/// none could read it.
pub open spec fn nothing_printed(tools: Seq<ToolReport>) -> bool {
    forall|program: Seq<char>| #[trigger] tool_output(tools, program) is None
}

/// One of the reports says that its program printed something.
pub open spec fn answered(reports: Seq<ToolReport>) -> bool {
    exists|i: int| 0 <= i < reports.len() && (#[trigger] reports[i]).output is Some
}

/// The place of the request to run next, where `requests` stand in the
/// order in which they are preferred and `reports` tell how the first of
/// them ended: the first request that has no report yet, as long as no
/// program printed anything; none once one did, or once all were run.
pub open spec fn next_to_run(requests: Seq<ToolRequest>, reports: Seq<ToolReport>) -> Option<int> {
    if !answered(reports) && reports.len() < requests.len() {
        Some(reports.len() as int)
    } else {
        None
    }
}

/// The first `limit` lines of `text`, or all of them where it has fewer.
pub open spec fn first_lines(text: Seq<char>, limit: nat) -> Seq<Seq<char>> {
    let lines = split_lines(text);
    if lines.len() > limit {
        lines.take(limit as int)
    } else {
        lines
    }
}

/// The extension of `path`, taken in lower case, is one of `list`.
pub open spec fn extension_in(path: FilePath, list: Seq<&'static str>) -> bool {
    path.extension matches Some(e) && exists|i: int|
        0 <= i < list.len() && (#[trigger] list[i])@ == lowercased(e@)
}

/// A source of previews for some kinds of file.
pub trait PreviewProvider {
    /// Whether this provider previews the file at `path`.
    spec fn claims(&self, path: FilePath) -> bool;

    /// What this provider shows for the file at `path` given the facts
    /// about it, or the message of its failure.
    spec fn preview(&self, path: FilePath, facts: FileFacts) -> Result<Content, Seq<char>>;

    fn can_preview(&self, path: &FilePath) -> (claimed: bool)
        ensures
            claimed == self.claims(*path),
    ;

    fn generate_preview(&self, path: &FilePath, facts: &FileFacts) -> (outcome: Result<
        PreviewContent,
        String,
    >)
        ensures
            outcome_view(outcome) == self.preview(*path, *facts),
    ;
}

/// What the first report on `program` says that it printed.
pub fn find_tool_output<'a>(tools: &'a Vec<ToolReport>, program: &str) -> (output: Option<
    &'a String,
>)
    ensures
        match output {
            Some(s) => tool_output(tools@, program@) == Some(s@),
            None => tool_output(tools@, program@) is None,
        },
{
    let mut i: usize = 0;
    assert(tools@.skip(0) == tools@);
    while i < tools.len()
        invariant
            0 <= i <= tools.len(),
            tool_output(tools@, program@) == tool_output(tools@.skip(i as int), program@),
        decreases tools.len() - i,
    {
        assert(tools@.skip(i as int).drop_first() == tools@.skip(i + 1));
        if same_text(tools[i].program.as_str(), program) {
            return match &tools[i].output {
                Some(s) => Some(s),
                None => None,
            };
        }
        i += 1;
    }
    None
}

/// The place of the request to run next, given the reports on the
/// requests that were run so far.
pub fn next_request(requests: &Vec<ToolRequest>, reports: &Vec<ToolReport>) -> (next: Option<usize>)
    ensures
        match next {
            Some(i) => next_to_run(requests@, reports@) == Some(i as int),
            None => next_to_run(requests@, reports@) is None,
        },
{
    let mut i: usize = 0;
    while i < reports.len()
        invariant
            0 <= i <= reports.len(),
            forall|k: int| 0 <= k < i ==> (#[trigger] reports@[k]).output is None,
        decreases reports.len() - i,
    {
        if reports[i].output.is_some() {
            return None;
        }
        i += 1;
    }
    if reports.len() < requests.len() {
        Some(reports.len())
    } else {
        None
    }
}

/// Whether the extension of `path`, taken in lower case, is one of `list`.
pub fn has_extension_in(path: &FilePath, list: &Vec<&'static str>) -> (found: bool)
    ensures
        found == extension_in(*path, list@),
{
    match &path.extension {
        Some(e) => {
            let lower = lowercase(e.as_str());
            let mut i: usize = 0;
            while i < list.len()
                invariant
                    0 <= i <= list.len(),
                    path.extension == Some(*e),
                    lower@ == lowercased(e@),
                    forall|k: int| 0 <= k < i ==> (#[trigger] list@[k])@ != lower@,
                decreases list.len() - i,
            {
                if same_text(list[i], lower.as_str()) {
                    assert(list@[i as int]@ == lowercased(e@));
                    return true;
                }
                i += 1;
            }
            false
        },
        None => false,
    }
}

/// The first `limit` lines of `text`, or all of them where it has fewer.
pub fn leading_lines(text: &str, limit: usize) -> (lines: Vec<String>)
    ensures
        texts(lines@) == first_lines(text@, limit as nat),
{
    let mut lines = lines_of(text);
    if lines.len() > limit {
        lines.truncate(limit);
    }
    lines
}

} // verus!
