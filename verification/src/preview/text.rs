//! Plain text files: the first lines, each cut to a width.

use vstd::prelude::*;
use vstd::string::*;
use crate::editor::lines::{join_lines, joined};
use crate::preview::{
    extension_in,
    first_lines,
    has_extension_in,
    leading_lines,
    Content,
    FileFacts,
    FilePath,
    PreviewContent,
    PreviewProvider,
};
use crate::utils::text::texts;

verus! {

/// The extensions of the files that are shown as plain text. Markdown is
/// not among them: it has a provider of its own.
pub open spec fn text_extensions() -> Seq<&'static str> {
    seq![
        "txt",
        "json",
        "xml",
        "yaml",
        "yml",
        "toml",
        "ini",
        "cfg",
        "conf",
        "log",
        "csv",
        "sql",
        "sh",
        "bash",
        "zsh",
        "py",
        "rs",
        "js",
        "ts",
        "java",
        "c",
        "cpp",
        "h",
        "hpp",
        "go",
        "rb",
        "php",
        "swift",
        "kt",
        "scala",
        "r",
        "lua",
        "pl",
        "ex",
        "exs",
        "erl",
        "hs",
        "clj",
        "vim",
        "gitignore",
        "env",
        "editorconfig",
    ]
}

/// `line`, or its first `width` characters where it is longer.
pub open spec fn clipped(line: Seq<char>, width: nat) -> Seq<char> {
    if line.len() > width {
        line.take(width as int)
    } else {
        line
    }
}

/// Each of `lines` cut to `width` characters.
pub open spec fn clipped_lines(lines: Seq<Seq<char>>, width: nat) -> Seq<Seq<char>> {
    Seq::new(lines.len(), |i: int| clipped(lines[i], width))
}

/// Shows text files: no more than `max_lines` lines, and of each line no
/// more than `max_width` characters.
pub struct TextPreview {
    pub max_lines: usize,
    pub max_width: usize,
}

impl TextPreview {
    pub fn new() -> (provider: TextPreview)
        ensures
            provider.max_lines == 500,
            provider.max_width == 200,
    {
        TextPreview { max_lines: 500, max_width: 200 }
    }

    /// What is shown of `text`.
    pub open spec fn shown(&self, text: Seq<char>) -> Seq<char> {
        join_lines(clipped_lines(first_lines(text, self.max_lines as nat), self.max_width as nat))
    }
}

impl PreviewProvider for TextPreview {
    open spec fn claims(&self, path: FilePath) -> bool {
        extension_in(path, text_extensions())
    }

    open spec fn preview(&self, path: FilePath, facts: FileFacts) -> Result<Content, Seq<char>> {
        match facts.text {
            Ok(text) => Ok(Content::Text(self.shown(text@))),
            Err(message) => Err(message@),
        }
    }

    fn can_preview(&self, path: &FilePath) -> (claimed: bool) {
        let list = vec![
            "txt",
            "json",
            "xml",
            "yaml",
            "yml",
            "toml",
            "ini",
            "cfg",
            "conf",
            "log",
            "csv",
            "sql",
            "sh",
            "bash",
            "zsh",
            "py",
            "rs",
            "js",
            "ts",
            "java",
            "c",
            "cpp",
            "h",
            "hpp",
            "go",
            "rb",
            "php",
            "swift",
            "kt",
            "scala",
            "r",
            "lua",
            "pl",
            "ex",
            "exs",
            "erl",
            "hs",
            "clj",
            "vim",
            "gitignore",
            "env",
            "editorconfig",
        ];
        has_extension_in(path, &list)
    }

    fn generate_preview(&self, path: &FilePath, facts: &FileFacts) -> (outcome: Result<
        PreviewContent,
        String,
    >) {
        match &facts.text {
            Ok(text) => {
                let mut lines = leading_lines(text.as_str(), self.max_lines);
                let ghost whole = texts(lines@);
                let mut i: usize = 0;
                while i < lines.len()
                    invariant
                        0 <= i <= lines.len(),
                        lines.len() == whole.len(),
                        forall|k: int|
                            0 <= k < i ==> (#[trigger] lines@[k])@ == clipped(
                                whole[k],
                                self.max_width as nat,
                            ),
                        forall|k: int| i <= k < lines.len() ==> (#[trigger] lines@[k])@ == whole[k],
                    decreases lines.len() - i,
                {
                    let line = lines[i].as_str();
                    if line.unicode_len() > self.max_width {
                        let cut = String::from_str(line.substring_char(0, self.max_width));
                        assert(cut@ == clipped(whole[i as int], self.max_width as nat));
                        lines[i] = cut;
                    }
                    i += 1;
                }
                assert(texts(lines@) =~= clipped_lines(whole, self.max_width as nat));
                Ok(PreviewContent::Text(joined(&lines)))
            },
            Err(message) => Err(message.clone()),
        }
    }
}

} // verus!
