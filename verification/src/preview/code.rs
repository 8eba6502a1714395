//! Source code: the first lines, as they are.

use vstd::prelude::*;
use vstd::string::*;
use crate::editor::lines::{join_lines, joined};
use crate::preview::{
    extension_in,
    first_lines,
    has_extension_in,
    leading_lines,
    Content,
    FileFacts,
    FilePath,
    PreviewContent,
    PreviewProvider,
};
use crate::utils::text::{optional_text, same_text};

verus! {

/// The extensions of the files that are shown as source code.
pub open spec fn code_extensions() -> Seq<&'static str> {
    seq![
        "rs",
        "py",
        "js",
        "ts",
        "tsx",
        "jsx",
        "java",
        "c",
        "cpp",
        "h",
        "hpp",
        "go",
        "rb",
        "php",
        "swift",
        "kt",
        "scala",
        "cs",
        "hs",
        "clj",
        "ex",
        "exs",
        "erl",
        "lua",
        "pl",
        "sh",
        "bash",
        "zsh",
        "sql",
        "graphql",
        "svelte",
        "vue",
        "css",
        "scss",
        "sass",
        "less",
        "html",
        "htm",
    ]
}

/// The language that an extension stands for, by its exact spelling;
/// `plaintext` for every other extension and for none.
pub open spec fn language_of(extension: Option<Seq<char>>) -> Seq<char> {
    match extension {
        Some(e) => if e == "rs"@ {
            "rust"@
        } else if e == "py"@ {
            "python"@
        } else if e == "js"@ || e == "mjs"@ {
            "javascript"@
        } else if e == "ts"@ || e == "tsx"@ {
            "typescript"@
        } else if e == "go"@ {
            "go"@
        } else if e == "java"@ {
            "java"@
        } else if e == "c"@ || e == "h"@ {
            "c"@
        } else if e == "cpp"@ || e == "hpp"@ || e == "cc"@ {
            "cpp"@
        } else if e == "rb"@ {
            "ruby"@
        } else if e == "php"@ {
            "php"@
        } else if e == "swift"@ {
            "swift"@
        } else if e == "kt"@ || e == "kts"@ {
            "kotlin"@
        } else if e == "scala"@ {
            "scala"@
        } else {
            "plaintext"@
        },
        None => "plaintext"@,
    }
}

/// Shows source files: no more than `max_lines` lines.
pub struct CodePreview {
    pub max_lines: usize,
}

impl CodePreview {
    pub fn new() -> (provider: CodePreview)
        ensures
            provider.max_lines == 300,
    {
        CodePreview { max_lines: 300 }
    }

    /// The language of the file at `path`, told by its extension.
    pub fn detect_language(path: &FilePath) -> (language: &'static str)
        ensures
            language@ == language_of(optional_text(path.extension)),
    {
        match &path.extension {
            Some(extension) => {
                let e = extension.as_str();
                if same_text(e, "rs") {
                    "rust"
                } else if same_text(e, "py") {
                    "python"
                } else if same_text(e, "js") || same_text(e, "mjs") {
                    "javascript"
                } else if same_text(e, "ts") || same_text(e, "tsx") {
                    "typescript"
                } else if same_text(e, "go") {
                    "go"
                } else if same_text(e, "java") {
                    "java"
                } else if same_text(e, "c") || same_text(e, "h") {
                    "c"
                } else if same_text(e, "cpp") || same_text(e, "hpp") || same_text(e, "cc") {
                    "cpp"
                } else if same_text(e, "rb") {
                    "ruby"
                } else if same_text(e, "php") {
                    "php"
                } else if same_text(e, "swift") {
                    "swift"
                } else if same_text(e, "kt") || same_text(e, "kts") {
                    "kotlin"
                } else if same_text(e, "scala") {
                    "scala"
                } else {
                    "plaintext"
                }
            },
            None => "plaintext",
        }
    }

    /// What is shown of `text`.
    pub open spec fn shown(&self, text: Seq<char>) -> Seq<char> {
        join_lines(first_lines(text, self.max_lines as nat))
    }
}

impl PreviewProvider for CodePreview {
    open spec fn claims(&self, path: FilePath) -> bool {
        extension_in(path, code_extensions())
    }

    open spec fn preview(&self, path: FilePath, facts: FileFacts) -> Result<Content, Seq<char>> {
        match facts.text {
            Ok(text) => Ok(Content::Text(self.shown(text@))),
            Err(message) => Err(message@),
        }
    }

    fn can_preview(&self, path: &FilePath) -> (claimed: bool) {
        let list = vec![
            "rs",
            "py",
            "js",
            "ts",
            "tsx",
            "jsx",
            "java",
            "c",
            "cpp",
            "h",
            "hpp",
            "go",
            "rb",
            "php",
            "swift",
            "kt",
            "scala",
            "cs",
            "hs",
            "clj",
            "ex",
            "exs",
            "erl",
            "lua",
            "pl",
            "sh",
            "bash",
            "zsh",
            "sql",
            "graphql",
            "svelte",
            "vue",
            "css",
            "scss",
            "sass",
            "less",
            "html",
            "htm",
        ];
        has_extension_in(path, &list)
    }

    fn generate_preview(&self, path: &FilePath, facts: &FileFacts) -> (outcome: Result<
        PreviewContent,
        String,
    >) {
        match &facts.text {
            Ok(text) => {
                let lines = leading_lines(text.as_str(), self.max_lines);
                Ok(PreviewContent::Text(joined(&lines)))
            },
            Err(message) => Err(message.clone()),
        }
    }
}

} // verus!
