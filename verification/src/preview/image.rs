//! Pictures, shown as text that an external converter drew.

use vstd::prelude::*;
use vstd::string::*;
use crate::preview::{
    extension_in,
    find_tool_output,
    has_extension_in,
    tool_output,
    Content,
    FileFacts,
    FilePath,
    PreviewContent,
    PreviewProvider,
    ToolRequest,
};
use crate::utils::text::{decimal, decimal_text, texts};

verus! {

/// The extensions of the files that are shown as pictures.
pub open spec fn image_extensions() -> Seq<&'static str> {
    seq!["png", "jpg", "jpeg", "gif", "bmp", "webp", "ico", "tiff", "svg"]
}

/// A size in character cells as the converter takes it: width, `x`, height.
pub open spec fn cell_size(width: u32, height: u32) -> Seq<char> {
    decimal_text(width as nat) + "x"@ + decimal_text(height as nat)
}

/// Shows pictures as text of `width` by `height` character cells.
pub struct ImagePreview {
    pub width: u32,
    pub height: u32,
}

impl ImagePreview {
    pub fn new() -> (provider: ImagePreview)
        ensures
            provider.width == 80,
            provider.height == 40,
    {
        ImagePreview { width: 80, height: 40 }
    }

    /// The programs whose output this provider reads, in the order in
    /// which it prefers them: `chafa`, which draws the picture as text of
    /// the provider's size, and `convert`, which only shows that the
    /// picture can be read. The second is of use only where the first gave
    /// nothing.
    pub fn commands(&self, path: &FilePath) -> (requests: Vec<ToolRequest>)
        ensures
            requests.len() == 2,
            requests[0].program@ == "chafa"@,
            texts(requests[0].args@) == seq![
                "--size"@,
                cell_size(self.width, self.height),
                "-s"@,
                cell_size(self.width, self.height),
                path.text@,
            ],
            requests[1].program@ == "convert"@,
            texts(requests[1].args@) == seq![path.text@, "gif:-"@],
    {
        let mut size = decimal(self.width as u64);
        size.append("x");
        size.append(decimal(self.height as u64).as_str());
        let mut draw: Vec<String> = Vec::new();
        draw.push(String::from_str("--size"));
        draw.push(size.clone());
        draw.push(String::from_str("-s"));
        draw.push(size);
        draw.push(path.text.clone());
        let mut probe: Vec<String> = Vec::new();
        probe.push(path.text.clone());
        probe.push(String::from_str("gif:-"));
        assert(texts(draw@) =~= seq![
            "--size"@,
            cell_size(self.width, self.height),
            "-s"@,
            cell_size(self.width, self.height),
            path.text@,
        ]);
        assert(texts(probe@) =~= seq![path.text@, "gif:-"@]);
        let mut requests: Vec<ToolRequest> = Vec::new();
        requests.push(ToolRequest { program: String::from_str("chafa"), args: draw });
        requests.push(ToolRequest { program: String::from_str("convert"), args: probe });
        requests
    }
}

impl PreviewProvider for ImagePreview {
    open spec fn claims(&self, path: FilePath) -> bool {
        extension_in(path, image_extensions())
    }

    /// What `chafa` drew; else, where `convert` could at least read the
    /// picture, a note that says so. Where neither gave anything the
    /// provider fails, so that the chain goes on.
    open spec fn preview(&self, path: FilePath, facts: FileFacts) -> Result<Content, Seq<char>> {
        match tool_output(facts.tools@, "chafa"@) {
            Some(drawn) => Ok(Content::Text(drawn)),
            None => match tool_output(facts.tools@, "convert"@) {
                Some(_) => Ok(Content::Text("[Image preview not available - install chafa]"@)),
                None => Err("chafa not found"@),
            },
        }
    }

    fn can_preview(&self, path: &FilePath) -> (claimed: bool) {
        let list = vec!["png", "jpg", "jpeg", "gif", "bmp", "webp", "ico", "tiff", "svg"];
        has_extension_in(path, &list)
    }

    fn generate_preview(&self, path: &FilePath, facts: &FileFacts) -> (outcome: Result<
        PreviewContent,
        String,
    >) {
        match find_tool_output(&facts.tools, "chafa") {
            Some(drawn) => Ok(PreviewContent::Text(drawn.clone())),
            None => match find_tool_output(&facts.tools, "convert") {
                Some(_) => Ok(
                    PreviewContent::Text(
                        String::from_str("[Image preview not available - install chafa]"),
                    ),
                ),
                None => Err(String::from_str("chafa not found")),
            },
        }
    }
}

} // verus!
