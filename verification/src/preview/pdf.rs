//! PDF documents, shown as the text that an external extractor found.

use vstd::prelude::*;
use vstd::string::*;
use crate::preview::{
    extension_in,
    find_tool_output,
    has_extension_in,
    tool_output,
    Content,
    FileFacts,
    FilePath,
    PreviewContent,
    PreviewProvider,
    ToolRequest,
};
use crate::utils::text::{decimal, decimal_text, texts};

verus! {

/// Shows the text of the first `max_pages` pages of PDF documents.
pub struct PdfPreview {
    pub max_pages: usize,
}

impl PdfPreview {
    pub fn new() -> (provider: PdfPreview)
        ensures
            provider.max_pages == 3,
    {
        PdfPreview { max_pages: 3 }
    }

    /// The program whose output this provider reads: `pdftotext`, told to
    /// stop after the provider's number of pages and to print what it
    /// finds.
    pub fn commands(&self, path: &FilePath) -> (requests: Vec<ToolRequest>)
        ensures
            requests.len() == 1,
            requests[0].program@ == "pdftotext"@,
            texts(requests[0].args@) == seq![
                "-l"@,
                decimal_text(self.max_pages as nat),
                path.text@,
                "-"@,
            ],
    {
        let mut args: Vec<String> = Vec::new();
        args.push(String::from_str("-l"));
        args.push(decimal(self.max_pages as u64));
        args.push(path.text.clone());
        args.push(String::from_str("-"));
        assert(texts(args@) =~= seq![
            "-l"@,
            decimal_text(self.max_pages as nat),
            path.text@,
            "-"@,
        ]);
        let mut requests: Vec<ToolRequest> = Vec::new();
        requests.push(ToolRequest { program: String::from_str("pdftotext"), args });
        requests
    }
}

impl PreviewProvider for PdfPreview {
    open spec fn claims(&self, path: FilePath) -> bool {
        extension_in(path, seq!["pdf"])
    }

    /// What `pdftotext` printed; a failure where it printed nothing.
    open spec fn preview(&self, path: FilePath, facts: FileFacts) -> Result<Content, Seq<char>> {
        match tool_output(facts.tools@, "pdftotext"@) {
            Some(text) => Ok(Content::Text(text)),
            None => Err("pdftotext not found"@),
        }
    }

    fn can_preview(&self, path: &FilePath) -> (claimed: bool) {
        let list = vec!["pdf"];
        assert(list@ =~= seq!["pdf"]);
        has_extension_in(path, &list)
    }

    fn generate_preview(&self, path: &FilePath, facts: &FileFacts) -> (outcome: Result<
        PreviewContent,
        String,
    >) {
        match find_tool_output(&facts.tools, "pdftotext") {
            Some(text) => Ok(PreviewContent::Text(text.clone())),
            None => Err(String::from_str("pdftotext not found")),
        }
    }
}

} // verus!
