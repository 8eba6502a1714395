//! A directory as the browser shows it: its entries, filtered and sorted.

use vstd::prelude::*;
use vstd::string::*;


pub mod dir;
pub mod order;

pub use dir::DirNavigator;



verus! {

/// The key by which a listing is sorted.
#[derive(Debug, Clone, Copy, PartialEq, Eq, Structural)]
pub enum SortBy {
    Name,
    Size,
    Modified,
    Type,
}

impl SortBy {
    /// The key that follows this one when the user steps through the keys:
    /// name, size, time of modification, type, and name again.
    pub fn next(self) -> (following: SortBy)
        ensures
            following == match self {
                SortBy::Name => SortBy::Size,
                SortBy::Size => SortBy::Modified,
                SortBy::Modified => SortBy::Type,
                SortBy::Type => SortBy::Name,
            },
    {
        match self {
            SortBy::Name => SortBy::Size,
            SortBy::Size => SortBy::Modified,
            SortBy::Modified => SortBy::Type,
            SortBy::Type => SortBy::Name,
        }
    }
}

/// A point in time: whole seconds since the Unix epoch, which may be
/// negative, and the nanoseconds into that second.
#[derive(Debug, Clone, Copy, PartialEq, Eq, Structural)]
pub struct Timestamp {
    pub secs: i64,
    pub nanos: u32,
}

/// One child of a directory.
#[derive(Debug, Clone)]
pub struct FileEntry {
    pub name: String,
    pub path: String,
    pub is_dir: bool,
    pub size: u64,
    pub modified: Option<Timestamp>,
    pub is_hidden: bool,
    pub extension: Option<String>,
}

/// A name is hidden if it starts with a dot.
pub open spec fn hidden_name(name: Seq<char>) -> bool {
    name.len() > 0 && name[0] == '.'
}

/// Whether a name is hidden.
pub fn is_hidden_name(name: &str) -> (hidden: bool)
    ensures
        hidden == hidden_name(name@),
{
    name.unicode_len() > 0 && name.get_char(0) == '.'
}

impl FileEntry {
    /// The entry for a file that the file system reported with these
    /// properties. Whether it is hidden follows from its name.
    pub fn new(
        name: String,
        path: String,
        is_dir: bool,
        size: u64,
        modified: Option<Timestamp>,
        extension: Option<String>,
    ) -> (entry: FileEntry)
        ensures
            entry.name == name,
            entry.path == path,
            entry.is_dir == is_dir,
            entry.size == size,
            entry.modified == modified,
            entry.extension == extension,
            entry.is_hidden == hidden_name(name@),
    {
        let is_hidden = is_hidden_name(name.as_str());
        FileEntry { name, path, is_dir, size, modified, is_hidden, extension }
    }
}

} // verus!
