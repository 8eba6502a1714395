//! Syntax highlighting. No language is highlighted yet: code passes through
//! unchanged.

use vstd::prelude::*;
use vstd::string::*;

verus! {

/// Turns source code into the text that is shown for it.
pub struct SyntaxHighlighter {}

impl SyntaxHighlighter {
    pub fn new() -> (highlighter: SyntaxHighlighter) {
        SyntaxHighlighter {  }
    }

    /// The text to show for `code` written in `language`: for every
    /// language, the code as it is.
    pub fn highlight(&self, code: &str, language: &str) -> (shown: String)
        ensures
            shown@ == code@,
    {
        String::from_str(code)
    }
}

} // verus!
