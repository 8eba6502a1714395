//! The chain of providers and the rule by which a preview is chosen.

use vstd::prelude::*;
use vstd::string::*;
use crate::preview::code::CodePreview;
use crate::preview::generic::GenericPreview;
use crate::preview::image::ImagePreview;
use crate::preview::markdown::MarkdownPreview;
use crate::preview::pdf::PdfPreview;
use crate::preview::text::TextPreview;
use crate::preview::{Content, FileFacts, FilePath, PreviewContent, PreviewProvider, outcome_view};

verus! {

/// One link of the chain: one of the library's providers with its limits.
pub enum Provider {
    Text(TextPreview),
    Code(CodePreview),
    Image(ImagePreview),
    Pdf(PdfPreview),
    Markdown(MarkdownPreview),
    Generic(GenericPreview),
}

impl PreviewProvider for Provider {
    open spec fn claims(&self, path: FilePath) -> bool {
        match self {
            Provider::Text(p) => p.claims(path),
            Provider::Code(p) => p.claims(path),
            Provider::Image(p) => p.claims(path),
            Provider::Pdf(p) => p.claims(path),
            Provider::Markdown(p) => p.claims(path),
            Provider::Generic(p) => p.claims(path),
        }
    }

    open spec fn preview(&self, path: FilePath, facts: FileFacts) -> Result<Content, Seq<char>> {
        match self {
            Provider::Text(p) => p.preview(path, facts),
            Provider::Code(p) => p.preview(path, facts),
            Provider::Image(p) => p.preview(path, facts),
            Provider::Pdf(p) => p.preview(path, facts),
            Provider::Markdown(p) => p.preview(path, facts),
            Provider::Generic(p) => p.preview(path, facts),
        }
    }

    fn can_preview(&self, path: &FilePath) -> (claimed: bool) {
        match self {
            Provider::Text(p) => p.can_preview(path),
            Provider::Code(p) => p.can_preview(path),
            Provider::Image(p) => p.can_preview(path),
            Provider::Pdf(p) => p.can_preview(path),
            Provider::Markdown(p) => p.can_preview(path),
            Provider::Generic(p) => p.can_preview(path),
        }
    }

    fn generate_preview(&self, path: &FilePath, facts: &FileFacts) -> (outcome: Result<
        PreviewContent,
        String,
    >) {
        match self {
            Provider::Text(p) => p.generate_preview(path, facts),
            Provider::Code(p) => p.generate_preview(path, facts),
            Provider::Image(p) => p.generate_preview(path, facts),
            Provider::Pdf(p) => p.generate_preview(path, facts),
            Provider::Markdown(p) => p.generate_preview(path, facts),
            Provider::Generic(p) => p.generate_preview(path, facts),
        }
    }
}

/// What the chain makes of one provider's outcome: a text that is not
/// empty, or anything that is no text, is the preview; an empty text and a
/// failure send the chain on to the next provider.
pub open spec fn selected(outcome: Result<Content, Seq<char>>) -> Option<Content> {
    match outcome {
        Ok(Content::Text(text)) => if text.len() > 0 {
            Some(Content::Text(text))
        } else {
            None
        },
        Ok(other) => Some(other),
        Err(_) => None,
    }
}

/// The preview where no provider gave one: the file's text as it was read,
/// or a binary note with the message of the error that reading it gave.
pub open spec fn fallback(facts: FileFacts) -> Content {
    match facts.text {
        Ok(text) => Content::Text(text@),
        Err(message) => Content::Binary("Cannot read file: "@ + message@),
    }
}

/// The preview that a chain of providers gives: that of the first provider
/// that claims the path and whose outcome is selected, else the fallback.
pub open spec fn resolve(providers: Seq<Provider>, path: FilePath, facts: FileFacts) -> Content
    decreases providers.len(),
{
    if providers.len() == 0 {
        fallback(facts)
    } else if providers[0].claims(path) && selected(providers[0].preview(path, facts)) is Some {
        selected(providers[0].preview(path, facts))->0
    } else {
        resolve(providers.drop_first(), path, facts)
    }
}

/// The chain that a new manager holds, most specific first: text, code,
/// pictures, PDF documents, Markdown.
pub open spec fn default_chain() -> Seq<Provider> {
    seq![
        Provider::Text(TextPreview { max_lines: 500, max_width: 200 }),
        Provider::Code(CodePreview { max_lines: 300 }),
        Provider::Image(ImagePreview { width: 80, height: 40 }),
        Provider::Pdf(PdfPreview { max_pages: 3 }),
        Provider::Markdown(MarkdownPreview { max_lines: 500 }),
    ]
}

/// What the chain makes of one provider's outcome.
pub fn select(outcome: Result<PreviewContent, String>) -> (choice: Option<PreviewContent>)
    ensures
        match choice {
            Some(content) => selected(outcome_view(outcome)) == Some(content@),
            None => selected(outcome_view(outcome)) is None,
        },
{
    match outcome {
        Ok(PreviewContent::Text(text)) => {
            if text.as_str().unicode_len() > 0 {
                Some(PreviewContent::Text(text))
            } else {
                None
            }
        },
        Ok(other) => Some(other),
        Err(_) => None,
    }
}

/// The preview where no provider gave one.
pub fn fall_back(facts: &FileFacts) -> (content: PreviewContent)
    ensures
        content@ == fallback(*facts),
{
    match &facts.text {
        Ok(text) => PreviewContent::Text(text.clone()),
        Err(message) => {
            let mut note = String::from_str("Cannot read file: ");
            note.append(message.as_str());
            PreviewContent::Binary(note)
        },
    }
}

/// The providers in the order in which they are asked.
pub struct PreviewManager {
    providers: Vec<Provider>,
}

impl View for PreviewManager {
    type V = Seq<Provider>;

    closed spec fn view(&self) -> Seq<Provider> {
        self.providers@
    }
}

impl PreviewManager {
    /// A manager with the library's providers.
    pub fn new() -> (manager: PreviewManager)
        ensures
            manager@ == default_chain(),
    {
        let mut manager = PreviewManager { providers: Vec::new() };
        manager.register(Provider::Text(TextPreview::new()));
        manager.register(Provider::Code(CodePreview::new()));
        manager.register(Provider::Image(ImagePreview::new()));
        manager.register(Provider::Pdf(PdfPreview::new()));
        manager.register(Provider::Markdown(MarkdownPreview::new()));
        assert(manager@ =~= default_chain());
        manager
    }

    /// Adds `provider` at the end of the chain, so that it is asked after
    /// all that were there.
    pub fn register(&mut self, provider: Provider)
        ensures
            final(self)@ == old(self)@.push(provider),
    {
        self.providers.push(provider);
    }

    /// The preview of the file at `path`, given the facts about it. A
    /// preview is always made: no failure of a provider or of the read
    /// comes out of here.
    pub fn get_preview(&self, path: &FilePath, facts: &FileFacts) -> (outcome: Result<
        PreviewContent,
        String,
    >)
        ensures
            outcome matches Ok(content) && content@ == resolve(self@, *path, *facts),
    {
        let mut i: usize = 0;
        assert(self.providers@.skip(0) == self.providers@);
        while i < self.providers.len()
            invariant
                0 <= i <= self.providers.len(),
                resolve(self.providers@, *path, *facts) == resolve(
                    self.providers@.skip(i as int),
                    *path,
                    *facts,
                ),
            decreases self.providers.len() - i,
        {
            assert(self.providers@.skip(i as int).drop_first() == self.providers@.skip(i + 1));
            assert(self.providers@.skip(i as int)[0] == self.providers@[i as int]);
            if self.providers[i].can_preview(path) {
                match select(self.providers[i].generate_preview(path, facts)) {
                    Some(content) => {
                        return Ok(content);
                    },
                    None => {},
                }
            }
            i += 1;
        }
        Ok(fall_back(facts))
    }
}

} // verus!
