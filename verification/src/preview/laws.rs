//! What holds of the chain of providers.

use vstd::prelude::*;
use vstd::string::*;
use crate::editor::lines::{join_lines, split_lines};
use crate::preview::code::code_extensions;
use crate::preview::image::image_extensions;
use crate::preview::manager::{default_chain, fallback, resolve, selected, Provider};
use crate::preview::markdown::MarkdownPreview;
use crate::preview::text::{clipped_lines, text_extensions};
use crate::preview::{
    extension_in,
    first_lines,
    nothing_printed,
    tool_output,
    Content,
    FileFacts,
    FilePath,
    PreviewProvider,
};
use crate::utils::text::lowercased;

verus! {

/// The order of the chain decides: the preview is that of the first
/// provider that claims the path and whose outcome is selected, whatever
/// the providers behind it would give.
pub proof fn lemma_first_claimant_decides(
    providers: Seq<Provider>,
    path: FilePath,
    facts: FileFacts,
    at: int,
)
    requires
        0 <= at < providers.len(),
        providers[at].claims(path),
        selected(providers[at].preview(path, facts)) is Some,
        forall|k: int|
            0 <= k < at ==> !((#[trigger] providers[k]).claims(path) && selected(
                providers[k].preview(path, facts),
            ) is Some),
    ensures
        Some(resolve(providers, path, facts)) == selected(providers[at].preview(path, facts)),
    decreases at,
{
    if at > 0 {
        let rest = providers.drop_first();
        assert(rest[at - 1] == providers[at]);
        assert forall|k: int| 0 <= k < at - 1 implies !((#[trigger] rest[k]).claims(path)
            && selected(rest[k].preview(path, facts)) is Some) by {
            assert(rest[k] == providers[k + 1]);
        }
        lemma_first_claimant_decides(rest, path, facts, at - 1);
    }
}

/// Where no provider claims the path with an outcome that is selected, the
/// preview is the fallback: the text as it was read, or a binary note
/// where it could not be read.
pub proof fn lemma_without_claimant_falls_back(
    providers: Seq<Provider>,
    path: FilePath,
    facts: FileFacts,
)
    requires
        forall|k: int|
            0 <= k < providers.len() ==> !((#[trigger] providers[k]).claims(path) && selected(
                providers[k].preview(path, facts),
            ) is Some),
    ensures
        resolve(providers, path, facts) == fallback(facts),
        facts.text is Err ==> resolve(providers, path, facts) is Binary,
        facts.text is Ok ==> resolve(providers, path, facts) is Text,
    decreases providers.len(),
{
    if providers.len() > 0 {
        let rest = providers.drop_first();
        assert(!(providers[0].claims(path) && selected(providers[0].preview(path, facts)) is Some));
        assert forall|k: int| 0 <= k < rest.len() implies !((#[trigger] rest[k]).claims(path)
            && selected(rest[k].preview(path, facts)) is Some) by {
            assert(rest[k] == providers[k + 1]);
        }
        lemma_without_claimant_falls_back(rest, path, facts);
    }
}

/// The text provider's list does not hold `md`.
proof fn lemma_md_is_no_text_extension()
    ensures
        forall|i: int| 0 <= i < text_extensions().len() ==> (#[trigger] text_extensions()[i])@ != "md"@,
{
    reveal_strlit("md");
    reveal_strlit("txt");
    assert("txt"@.len() != "md"@.len());
    reveal_strlit("json");
    assert("json"@.len() != "md"@.len());
    reveal_strlit("xml");
    assert("xml"@.len() != "md"@.len());
    reveal_strlit("yaml");
    assert("yaml"@.len() != "md"@.len());
    reveal_strlit("yml");
    assert("yml"@.len() != "md"@.len());
    reveal_strlit("toml");
    assert("toml"@.len() != "md"@.len());
    reveal_strlit("ini");
    assert("ini"@.len() != "md"@.len());
    reveal_strlit("cfg");
    assert("cfg"@.len() != "md"@.len());
    reveal_strlit("conf");
    assert("conf"@.len() != "md"@.len());
    reveal_strlit("log");
    assert("log"@.len() != "md"@.len());
    reveal_strlit("csv");
    assert("csv"@.len() != "md"@.len());
    reveal_strlit("sql");
    assert("sql"@.len() != "md"@.len());
    reveal_strlit("sh");
    assert("sh"@[0] != "md"@[0]);
    reveal_strlit("bash");
    assert("bash"@.len() != "md"@.len());
    reveal_strlit("zsh");
    assert("zsh"@.len() != "md"@.len());
    reveal_strlit("py");
    assert("py"@[0] != "md"@[0]);
    reveal_strlit("rs");
    assert("rs"@[0] != "md"@[0]);
    reveal_strlit("js");
    assert("js"@[0] != "md"@[0]);
    reveal_strlit("ts");
    assert("ts"@[0] != "md"@[0]);
    reveal_strlit("java");
    assert("java"@.len() != "md"@.len());
    reveal_strlit("c");
    assert("c"@.len() != "md"@.len());
    reveal_strlit("cpp");
    assert("cpp"@.len() != "md"@.len());
    reveal_strlit("h");
    assert("h"@.len() != "md"@.len());
    reveal_strlit("hpp");
    assert("hpp"@.len() != "md"@.len());
    reveal_strlit("go");
    assert("go"@[0] != "md"@[0]);
    reveal_strlit("rb");
    assert("rb"@[0] != "md"@[0]);
    reveal_strlit("php");
    assert("php"@.len() != "md"@.len());
    reveal_strlit("swift");
    assert("swift"@.len() != "md"@.len());
    reveal_strlit("kt");
    assert("kt"@[0] != "md"@[0]);
    reveal_strlit("scala");
    assert("scala"@.len() != "md"@.len());
    reveal_strlit("r");
    assert("r"@.len() != "md"@.len());
    reveal_strlit("lua");
    assert("lua"@.len() != "md"@.len());
    reveal_strlit("pl");
    assert("pl"@[0] != "md"@[0]);
    reveal_strlit("ex");
    assert("ex"@[0] != "md"@[0]);
    reveal_strlit("exs");
    assert("exs"@.len() != "md"@.len());
    reveal_strlit("erl");
    assert("erl"@.len() != "md"@.len());
    reveal_strlit("hs");
    assert("hs"@[0] != "md"@[0]);
    reveal_strlit("clj");
    assert("clj"@.len() != "md"@.len());
    reveal_strlit("vim");
    assert("vim"@.len() != "md"@.len());
    reveal_strlit("gitignore");
    assert("gitignore"@.len() != "md"@.len());
    reveal_strlit("env");
    assert("env"@.len() != "md"@.len());
    reveal_strlit("editorconfig");
    assert("editorconfig"@.len() != "md"@.len());
}

/// The code provider's list does not hold `md`.
proof fn lemma_md_is_no_code_extension()
    ensures
        forall|i: int| 0 <= i < code_extensions().len() ==> (#[trigger] code_extensions()[i])@ != "md"@,
{
    reveal_strlit("md");
    reveal_strlit("rs");
    assert("rs"@[0] != "md"@[0]);
    reveal_strlit("py");
    assert("py"@[0] != "md"@[0]);
    reveal_strlit("js");
    assert("js"@[0] != "md"@[0]);
    reveal_strlit("ts");
    assert("ts"@[0] != "md"@[0]);
    reveal_strlit("tsx");
    assert("tsx"@.len() != "md"@.len());
    reveal_strlit("jsx");
    assert("jsx"@.len() != "md"@.len());
    reveal_strlit("java");
    assert("java"@.len() != "md"@.len());
    reveal_strlit("c");
    assert("c"@.len() != "md"@.len());
    reveal_strlit("cpp");
    assert("cpp"@.len() != "md"@.len());
    reveal_strlit("h");
    assert("h"@.len() != "md"@.len());
    reveal_strlit("hpp");
    assert("hpp"@.len() != "md"@.len());
    reveal_strlit("go");
    assert("go"@[0] != "md"@[0]);
    reveal_strlit("rb");
    assert("rb"@[0] != "md"@[0]);
    reveal_strlit("php");
    assert("php"@.len() != "md"@.len());
    reveal_strlit("swift");
    assert("swift"@.len() != "md"@.len());
    reveal_strlit("kt");
    assert("kt"@[0] != "md"@[0]);
    reveal_strlit("scala");
    assert("scala"@.len() != "md"@.len());
    reveal_strlit("cs");
    assert("cs"@[0] != "md"@[0]);
    reveal_strlit("hs");
    assert("hs"@[0] != "md"@[0]);
    reveal_strlit("clj");
    assert("clj"@.len() != "md"@.len());
    reveal_strlit("ex");
    assert("ex"@[0] != "md"@[0]);
    reveal_strlit("exs");
    assert("exs"@.len() != "md"@.len());
    reveal_strlit("erl");
    assert("erl"@.len() != "md"@.len());
    reveal_strlit("lua");
    assert("lua"@.len() != "md"@.len());
    reveal_strlit("pl");
    assert("pl"@[0] != "md"@[0]);
    reveal_strlit("sh");
    assert("sh"@[0] != "md"@[0]);
    reveal_strlit("bash");
    assert("bash"@.len() != "md"@.len());
    reveal_strlit("zsh");
    assert("zsh"@.len() != "md"@.len());
    reveal_strlit("sql");
    assert("sql"@.len() != "md"@.len());
    reveal_strlit("graphql");
    assert("graphql"@.len() != "md"@.len());
    reveal_strlit("svelte");
    assert("svelte"@.len() != "md"@.len());
    reveal_strlit("vue");
    assert("vue"@.len() != "md"@.len());
    reveal_strlit("css");
    assert("css"@.len() != "md"@.len());
    reveal_strlit("scss");
    assert("scss"@.len() != "md"@.len());
    reveal_strlit("sass");
    assert("sass"@.len() != "md"@.len());
    reveal_strlit("less");
    assert("less"@.len() != "md"@.len());
    reveal_strlit("html");
    assert("html"@.len() != "md"@.len());
    reveal_strlit("htm");
    assert("htm"@.len() != "md"@.len());
}

/// The picture provider's list does not hold `md`.
proof fn lemma_md_is_no_image_extension()
    ensures
        forall|i: int| 0 <= i < image_extensions().len() ==> (#[trigger] image_extensions()[i])@ != "md"@,
{
    reveal_strlit("md");
    reveal_strlit("png");
    assert("png"@.len() != "md"@.len());
    reveal_strlit("jpg");
    assert("jpg"@.len() != "md"@.len());
    reveal_strlit("jpeg");
    assert("jpeg"@.len() != "md"@.len());
    reveal_strlit("gif");
    assert("gif"@.len() != "md"@.len());
    reveal_strlit("bmp");
    assert("bmp"@.len() != "md"@.len());
    reveal_strlit("webp");
    assert("webp"@.len() != "md"@.len());
    reveal_strlit("ico");
    assert("ico"@.len() != "md"@.len());
    reveal_strlit("tiff");
    assert("tiff"@.len() != "md"@.len());
    reveal_strlit("svg");
    assert("svg"@.len() != "md"@.len());
}

/// `pdf` is not `md`.
proof fn lemma_md_is_no_pdf_extension()
    ensures
        forall|i: int| 0 <= i < seq!["pdf"].len() ==> (#[trigger] seq!["pdf"][i])@ != "md"@,
{
    reveal_strlit("md");
    reveal_strlit("pdf");
    assert("pdf"@.len() != "md"@.len());
}

/// A Markdown file gets its preview from the Markdown provider. Where the
/// extension is `md` in lower case and the Markdown provider shows something
/// of the text, no provider before it in the chain of a new manager claims
/// the file, so what is shown is the Markdown provider's text: the first
/// lines as they are, none of them cut to a width.
pub proof fn lemma_markdown_is_shown_by_its_provider(path: FilePath, facts: FileFacts)
    requires
        path.extension matches Some(e) && lowercased(e@) == "md"@,
        facts.text matches Ok(t) && (MarkdownPreview { max_lines: 500 }).shown(t@).len() > 0,
    ensures
        resolve(default_chain(), path, facts) == Content::Text(
            (MarkdownPreview { max_lines: 500 }).shown(facts.text->Ok_0@),
        ),
{
    let chain = default_chain();
    lemma_md_is_no_text_extension();
    lemma_md_is_no_code_extension();
    lemma_md_is_no_image_extension();
    lemma_md_is_no_pdf_extension();
    assert(!extension_in(path, text_extensions()));
    assert(!extension_in(path, code_extensions()));
    assert(!extension_in(path, image_extensions()));
    assert(!extension_in(path, seq!["pdf"]));
    assert(seq!["md"][0]@ == "md"@);
    assert(extension_in(path, seq!["md"]));
    assert(chain[4].claims(path));
    assert forall|k: int| 0 <= k < 4 implies !((#[trigger] chain[k]).claims(path) && selected(
        chain[k].preview(path, facts),
    ) is Some) by {}
    lemma_first_claimant_decides(chain, path, facts, 4);
}

/// Nothing is shown of an empty text, whatever the limits.
proof fn lemma_nothing_of_empty_text()
    ensures
        split_lines(Seq::<char>::empty()) == Seq::<Seq<char>>::empty(),
        join_lines(Seq::<Seq<char>>::empty()) == Seq::<char>::empty(),
{
}

/// A file that nothing could read is shown as a binary note with the
/// message of the error that reading it gave, and a file that is empty is
/// shown as an empty text, whatever the file's name. Nothing could read a
/// file that cannot be read as text and for which no external program
/// printed anything. In both cases every provider of a new manager gives
/// nothing and the chain falls back; no failure comes out.
pub proof fn lemma_unreadable_and_empty_files(path: FilePath, facts: FileFacts)
    requires
        nothing_printed(facts.tools@),
        facts.text matches Ok(t) ==> t@.len() == 0,
    ensures
        facts.text matches Err(message) ==> resolve(default_chain(), path, facts)
            == Content::Binary("Cannot read file: "@ + message@),
        facts.text is Ok ==> resolve(default_chain(), path, facts) == Content::Text(
            Seq::<char>::empty(),
        ),
{
    let chain = default_chain();
    lemma_nothing_of_empty_text();
    assert(tool_output(facts.tools@, "chafa"@) is None);
    assert(tool_output(facts.tools@, "convert"@) is None);
    assert(tool_output(facts.tools@, "pdftotext"@) is None);
    assert forall|k: int| 0 <= k < chain.len() implies !((#[trigger] chain[k]).claims(path)
        && selected(chain[k].preview(path, facts)) is Some) by {
        if let Ok(t) = facts.text {
            assert(t@ == Seq::<char>::empty());
            let none = Seq::<Seq<char>>::empty();
            assert(first_lines(t@, 500) == none);
            assert(first_lines(t@, 300) == none);
            assert(clipped_lines(none, 200) =~= none);
        }
    }
    lemma_without_claimant_falls_back(chain, path, facts);
    if let Ok(t) = facts.text {
        assert(t@ =~= Seq::<char>::empty());
    }
}

} // verus!
