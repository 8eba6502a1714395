//! Markdown files: the first lines, as they are.

use vstd::prelude::*;
use vstd::string::*;
use crate::editor::lines::{join_lines, joined};
use crate::preview::{
    extension_in,
    first_lines,
    has_extension_in,
    leading_lines,
    Content,
    FileFacts,
    FilePath,
    PreviewContent,
    PreviewProvider,
};

verus! {

/// Shows Markdown files: no more than `max_lines` lines.
pub struct MarkdownPreview {
    pub max_lines: usize,
}

impl MarkdownPreview {
    pub fn new() -> (provider: MarkdownPreview)
        ensures
            provider.max_lines == 500,
    {
        MarkdownPreview { max_lines: 500 }
    }

    /// What is shown of `text`.
    pub open spec fn shown(&self, text: Seq<char>) -> Seq<char> {
        join_lines(first_lines(text, self.max_lines as nat))
    }
}

impl PreviewProvider for MarkdownPreview {
    open spec fn claims(&self, path: FilePath) -> bool {
        extension_in(path, seq!["md"])
    }

    open spec fn preview(&self, path: FilePath, facts: FileFacts) -> Result<Content, Seq<char>> {
        match facts.text {
            Ok(text) => Ok(Content::Text(self.shown(text@))),
            Err(message) => Err(message@),
        }
    }

    fn can_preview(&self, path: &FilePath) -> (claimed: bool) {
        let list = vec!["md"];
        assert(list@ =~= seq!["md"]);
        has_extension_in(path, &list)
    }

    fn generate_preview(&self, path: &FilePath, facts: &FileFacts) -> (outcome: Result<
        PreviewContent,
        String,
    >) {
        match &facts.text {
            Ok(text) => {
                let lines = leading_lines(text.as_str(), self.max_lines);
                Ok(PreviewContent::Text(joined(&lines)))
            },
            Err(message) => Err(message.clone()),
        }
    }
}

} // verus!
