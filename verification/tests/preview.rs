use file_browser::preview::code::CodePreview;
use file_browser::preview::generic::{classify, describe, head_of, FileKind, GenericPreview};
use file_browser::preview::image::ImagePreview;
use file_browser::preview::manager::{fall_back, select, PreviewManager, Provider};
use file_browser::preview::markdown::MarkdownPreview;
use file_browser::preview::pdf::PdfPreview;
use file_browser::preview::text::TextPreview;
use file_browser::preview::{
    find_tool_output, has_extension_in, leading_lines, next_request, FileFacts, FilePath,
    PreviewContent,
    PreviewProvider, ToolReport,
};

fn path(name: &str) -> FilePath {
    let extension = name.rsplit_once('.').filter(|(stem, _)| !stem.is_empty()).map(|(_, e)| e.to_string());
    FilePath { text: format!("/dir/{}", name), file_name: Some(name.to_string()), extension }
}

fn readable(text: &str) -> FileFacts {
    FileFacts { size: Ok(text.len() as u64), text: Ok(text.to_string()), tools: Vec::new() }
}

fn unreadable(size: u64) -> FileFacts {
    FileFacts { size: Ok(size), text: Err("stream did not contain valid UTF-8".to_string()), tools: Vec::new() }
}

fn report(program: &str, output: Option<&str>) -> ToolReport {
    ToolReport { program: program.to_string(), output: output.map(|o| o.to_string()) }
}

fn text_of(content: PreviewContent) -> String {
    match content {
        PreviewContent::Text(text) => text,
        other => panic!("no text: {:?}", other),
    }
}

fn binary_of(content: PreviewContent) -> String {
    match content {
        PreviewContent::Binary(text) => text,
        other => panic!("no binary note: {:?}", other),
    }
}

#[test]
fn markdown_is_shown_by_the_markdown_provider() {
    let manager = PreviewManager::new();
    let long = "a".repeat(201);
    assert_eq!(text_of(manager.get_preview(&path("notes.md"), &readable(&long)).unwrap()), long);
    let wide = format!("# Title\n{}\nend\n", "x".repeat(300));
    assert_eq!(
        text_of(manager.get_preview(&path("NOTES.MD"), &readable(&wide)).unwrap()),
        format!("# Title\n{}\nend", "x".repeat(300))
    );
    let many: String = (0..600).map(|i| format!("{}\n", i)).collect();
    let first: Vec<String> = (0..500).map(|i| i.to_string()).collect();
    assert_eq!(text_of(manager.get_preview(&path("a.md"), &readable(&many)).unwrap()), first.join("\n"));
    assert!(!TextPreview::new().can_preview(&path("notes.md")));
    assert!(!CodePreview::new().can_preview(&path("notes.md")));
}

#[test]
fn plain_text_is_cut_to_the_text_providers_width() {
    let manager = PreviewManager::new();
    let long = "a".repeat(201);
    assert_eq!(text_of(manager.get_preview(&path("notes.txt"), &readable(&long)).unwrap()), "a".repeat(200));
}

#[test]
fn an_unreadable_file_gives_a_binary_note() {
    let manager = PreviewManager::new();
    for name in ["a.txt", "a.rs", "a.md", "a.bin", "noext", "a.png", "a.svg", "a.pdf"] {
        let note = binary_of(manager.get_preview(&path(name), &unreadable(3)).unwrap());
        assert_eq!(note, "Cannot read file: stream did not contain valid UTF-8");
    }
}

#[test]
fn an_empty_file_falls_back_to_its_empty_text() {
    let manager = PreviewManager::new();
    for name in ["a.txt", "a.rs", "a.md", "a.bin", "a.png", "a.pdf"] {
        assert_eq!(text_of(manager.get_preview(&path(name), &readable("")).unwrap()), "");
    }
    assert_eq!(text_of(manager.get_preview(&path("a.txt"), &readable("\n")).unwrap()), "\n");
}

#[test]
fn a_file_that_nobody_claims_is_shown_whole() {
    let manager = PreviewManager::new();
    let text = format!("{}\n", "y".repeat(400));
    assert_eq!(text_of(manager.get_preview(&path("data.bin"), &readable(&text)).unwrap()), text);
}

#[test]
fn code_that_is_no_text_file_keeps_its_width() {
    let manager = PreviewManager::new();
    let long = "z".repeat(300);
    assert_eq!(text_of(manager.get_preview(&path("page.html"), &readable(&long)).unwrap()), long);
}

#[test]
fn pictures_are_shown_as_a_tool_drew_them() {
    let manager = PreviewManager::new();
    let picture = path("cat.PNG");
    let mut facts = unreadable(9);
    facts.tools = vec![report("chafa", None), report("convert", Some("GIF89a"))];
    assert_eq!(
        text_of(manager.get_preview(&picture, &facts).unwrap()),
        "[Image preview not available - install chafa]"
    );
    facts.tools = vec![report("chafa", Some("@@##")), report("convert", Some("GIF89a"))];
    assert_eq!(text_of(manager.get_preview(&picture, &facts).unwrap()), "@@##");
}

#[test]
fn a_picture_that_no_tool_drew_falls_back() {
    let manager = PreviewManager::new();
    let picture = path("cat.png");
    assert_eq!(
        binary_of(manager.get_preview(&picture, &unreadable(9)).unwrap()),
        "Cannot read file: stream did not contain valid UTF-8"
    );
    let mut facts = unreadable(9);
    facts.tools = vec![report("chafa", None), report("convert", None)];
    assert_eq!(
        binary_of(manager.get_preview(&picture, &facts).unwrap()),
        "Cannot read file: stream did not contain valid UTF-8"
    );
    assert_eq!(text_of(manager.get_preview(&path("logo.svg"), &readable("<svg/>")).unwrap()), "<svg/>");
    assert_eq!(
        ImagePreview::new().generate_preview(&picture, &unreadable(9)).unwrap_err(),
        "chafa not found"
    );
}

#[test]
fn tools_are_run_in_turn_until_one_prints() {
    let requests = ImagePreview::new().commands(&path("cat.png"));
    assert_eq!(next_request(&requests, &Vec::new()), Some(0));
    assert_eq!(next_request(&requests, &vec![report("chafa", None)]), Some(1));
    assert_eq!(next_request(&requests, &vec![report("chafa", Some("@"))]), None);
    assert_eq!(next_request(&requests, &vec![report("chafa", Some(""))]), None);
    assert_eq!(next_request(&requests, &vec![report("chafa", None), report("convert", None)]), None);
    assert_eq!(next_request(&requests, &vec![report("chafa", None), report("convert", Some("x"))]), None);
    assert_eq!(next_request(&Vec::new(), &Vec::new()), None);
}

#[test]
fn an_empty_drawing_sends_the_chain_on() {
    let manager = PreviewManager::new();
    let mut facts = unreadable(9);
    facts.tools = vec![report("chafa", Some(""))];
    let note = binary_of(manager.get_preview(&path("cat.png"), &facts).unwrap());
    assert!(note.starts_with("Cannot read file: "));
}

#[test]
fn a_pdf_without_its_tool_falls_back() {
    let manager = PreviewManager::new();
    let document = path("paper.pdf");
    let note = binary_of(manager.get_preview(&document, &unreadable(9)).unwrap());
    assert!(note.starts_with("Cannot read file: "));
    let mut facts = unreadable(9);
    facts.tools = vec![report("pdftotext", Some("Abstract"))];
    assert_eq!(text_of(manager.get_preview(&document, &facts).unwrap()), "Abstract");
    let pdf = PdfPreview::new();
    assert_eq!(pdf.generate_preview(&document, &unreadable(9)).unwrap_err(), "pdftotext not found");
}

#[test]
fn registered_providers_are_asked_last_and_in_order() {
    let mut manager = PreviewManager::new();
    manager.register(Provider::Text(TextPreview { max_lines: 1, max_width: 1 }));
    manager.register(Provider::Generic(GenericPreview));
    manager.register(Provider::Code(CodePreview { max_lines: 1 }));
    assert_eq!(text_of(manager.get_preview(&path("a.txt"), &readable("one\ntwo")).unwrap()), "one\ntwo");
    let mut facts = unreadable(4);
    facts.tools = vec![report("file", Some("data"))];
    assert_eq!(
        binary_of(manager.get_preview(&path("blob.bin"), &facts).unwrap()),
        "📄 File: blob.bin\n📁 Size: 4 bytes\n🔧 Type: bin\n\n\n🔍 Detected: data"
    );
    facts.size = Err("vanished".to_string());
    assert_eq!(binary_of(manager.get_preview(&path("blob.bin"), &facts).unwrap()), "Cannot read file: stream did not contain valid UTF-8");
    let long = "a".repeat(6000);
    assert_eq!(
        text_of(manager.get_preview(&path("blob.bin"), &readable(&long)).unwrap()),
        format!("{}\n\n... (truncated)", "a".repeat(5000))
    );
}

#[test]
fn selection_of_one_outcome() {
    assert!(matches!(select(Ok(PreviewContent::Text("a".to_string()))), Some(PreviewContent::Text(t)) if t == "a"));
    assert!(select(Ok(PreviewContent::Text(String::new()))).is_none());
    assert!(matches!(select(Ok(PreviewContent::Binary(String::new()))), Some(PreviewContent::Binary(_))));
    assert!(matches!(select(Ok(PreviewContent::Error("e".to_string()))), Some(PreviewContent::Error(_))));
    assert!(matches!(select(Ok(PreviewContent::Image(Vec::new()))), Some(PreviewContent::Image(_))));
    assert!(select(Err("failed".to_string())).is_none());
}

#[test]
fn the_fallback_reads_or_reports() {
    assert_eq!(text_of(fall_back(&readable("abc"))), "abc");
    let mut facts = unreadable(1);
    facts.text = Err("denied".to_string());
    assert_eq!(binary_of(fall_back(&facts)), "Cannot read file: denied");
}

#[test]
fn providers_claim_by_extension() {
    let text = TextPreview::new();
    let code = CodePreview::new();
    let image = ImagePreview::new();
    let pdf = PdfPreview::new();
    let markdown = MarkdownPreview::new();
    assert!(text.can_preview(&path("a.txt")));
    assert!(text.can_preview(&path("a.TXT")));
    assert!(text.can_preview(&path("a.editorconfig")));
    assert!(text.can_preview(&path("a.rs")));
    assert!(!text.can_preview(&path("a.html")));
    assert!(!text.can_preview(&path("txt")));
    assert!(!text.can_preview(&path(".txt")));
    assert!(code.can_preview(&path("a.Rs")));
    assert!(code.can_preview(&path("a.htm")));
    assert!(!code.can_preview(&path("a.md")));
    assert!(image.can_preview(&path("a.svg")));
    assert!(image.can_preview(&path("a.JPEG")));
    assert!(!image.can_preview(&path("a.pdf")));
    assert!(pdf.can_preview(&path("a.Pdf")));
    assert!(!pdf.can_preview(&path("a.pd")));
    assert!(markdown.can_preview(&path("a.MD")));
    assert!(!markdown.can_preview(&path("a.markdown")));
    assert!(GenericPreview.can_preview(&path("anything")));
}

#[test]
fn providers_cut_long_files() {
    let many: String = (0..600).map(|i| format!("{}\n", i)).collect();
    let first = |n: usize| (0..n).map(|i| i.to_string()).collect::<Vec<_>>().join("\n");
    let facts = readable(&many);
    assert_eq!(text_of(TextPreview::new().generate_preview(&path("a.txt"), &facts).unwrap()), first(500));
    assert_eq!(text_of(CodePreview::new().generate_preview(&path("a.rs"), &facts).unwrap()), first(300));
    assert_eq!(text_of(MarkdownPreview::new().generate_preview(&path("a.md"), &facts).unwrap()), first(500));
    let narrow = TextPreview { max_lines: 2, max_width: 3 };
    assert_eq!(
        text_of(narrow.generate_preview(&path("a.txt"), &readable("héllo\nab\nthird")).unwrap()),
        "hél\nab"
    );
    assert_eq!(
        TextPreview::new().generate_preview(&path("a.txt"), &unreadable(1)).unwrap_err(),
        "stream did not contain valid UTF-8"
    );
}

#[test]
fn provider_limits() {
    assert_eq!((TextPreview::new().max_lines, TextPreview::new().max_width), (500, 200));
    assert_eq!(CodePreview::new().max_lines, 300);
    assert_eq!(MarkdownPreview::new().max_lines, 500);
    assert_eq!((ImagePreview::new().width, ImagePreview::new().height), (80, 40));
    assert_eq!(PdfPreview::new().max_pages, 3);
}

#[test]
fn languages_by_extension() {
    let cases = [
        ("a.rs", "rust"),
        ("a.py", "python"),
        ("a.mjs", "javascript"),
        ("a.tsx", "typescript"),
        ("a.go", "go"),
        ("a.java", "java"),
        ("a.h", "c"),
        ("a.cc", "cpp"),
        ("a.rb", "ruby"),
        ("a.php", "php"),
        ("a.swift", "swift"),
        ("a.kts", "kotlin"),
        ("a.scala", "scala"),
        ("a.RS", "plaintext"),
        ("a.txt", "plaintext"),
        ("noext", "plaintext"),
    ];
    for (name, language) in cases {
        assert_eq!(CodePreview::detect_language(&path(name)), language, "{}", name);
    }
}

#[test]
fn commands_of_the_tools() {
    let picture = path("cat.png");
    let requests = ImagePreview::new().commands(&picture);
    assert_eq!(requests.len(), 2);
    assert_eq!(requests[0].program, "chafa");
    assert_eq!(requests[0].args, vec!["--size", "80x40", "-s", "80x40", "/dir/cat.png"]);
    assert_eq!(requests[1].program, "convert");
    assert_eq!(requests[1].args, vec!["/dir/cat.png", "gif:-"]);
    let requests = PdfPreview::new().commands(&path("a.pdf"));
    assert_eq!(requests.len(), 1);
    assert_eq!(requests[0].program, "pdftotext");
    assert_eq!(requests[0].args, vec!["-l", "3", "/dir/a.pdf", "-"]);
    let generic = |name: &str| {
        GenericPreview.commands(&path(name)).into_iter().map(|r| (r.program, r.args)).collect::<Vec<_>>()
    };
    let own = |s: &[&str]| s.iter().map(|a| a.to_string()).collect::<Vec<_>>();
    assert_eq!(generic("a.docx"), vec![("pandoc".to_string(), own(&["-t", "plain", "/dir/a.docx"]))]);
    assert_eq!(generic("a.xls"), vec![("xlsx2csv".to_string(), own(&["/dir/a.xls"]))]);
    assert!(generic("a.ppt").is_empty());
    assert_eq!(generic("a.zip"), vec![("unzip".to_string(), own(&["-l", "/dir/a.zip"]))]);
    assert_eq!(generic("a.gz"), vec![("tar".to_string(), own(&["-tvf", "/dir/a.gz"]))]);
    assert_eq!(generic("a.rar"), vec![("7z".to_string(), own(&["l", "/dir/a.rar"]))]);
    assert_eq!(generic("a.mp3"), vec![("mediainfo".to_string(), own(&["/dir/a.mp3"]))]);
    assert_eq!(generic("a.mkv"), vec![("mediainfo".to_string(), own(&["/dir/a.mkv"]))]);
    assert_eq!(generic("a.so"), vec![("file".to_string(), own(&["/dir/a.so"]))]);
    assert_eq!(generic("a.iso"), vec![("isoinfo".to_string(), own(&["-l", "-i", "/dir/a.iso"]))]);
    assert_eq!(generic("noext"), vec![("file".to_string(), own(&["/dir/noext"]))]);
}

#[test]
fn classes_of_files() {
    assert_eq!(classify("doc"), FileKind::Word);
    assert_eq!(classify("xlsx"), FileKind::Sheet);
    assert_eq!(classify("pptx"), FileKind::Slides);
    assert_eq!(classify("zip"), FileKind::Zip);
    assert_eq!(classify("tar"), FileKind::Tar);
    assert_eq!(classify("7z"), FileKind::SevenZip);
    assert_eq!(classify("flac"), FileKind::Audio);
    assert_eq!(classify("webm"), FileKind::Video);
    assert_eq!(classify("dylib"), FileKind::Executable);
    assert_eq!(classify("iso"), FileKind::DiskImage);
    assert_eq!(classify("ZIP"), FileKind::Other);
    assert_eq!(classify("unknown"), FileKind::Other);
}

#[test]
fn the_generic_preview_shows_text_and_shortens_it() {
    let generic = GenericPreview;
    assert_eq!(text_of(generic.generate_preview(&path("a"), &readable("short")).unwrap()), "short");
    let exact = "a".repeat(5000);
    assert_eq!(text_of(generic.generate_preview(&path("a"), &readable(&exact)).unwrap()), exact);
    let long = "a".repeat(5001);
    assert_eq!(
        text_of(generic.generate_preview(&path("a"), &readable(&long)).unwrap()),
        format!("{}\n\n... (truncated)", "a".repeat(5000))
    );
    let wide = "é".repeat(2600);
    assert_eq!(
        text_of(generic.generate_preview(&path("a"), &readable(&wide)).unwrap()),
        format!("{}\n\n... (truncated)", wide)
    );
    let mut facts = readable("x");
    facts.size = Err("no such file".to_string());
    assert_eq!(generic.generate_preview(&path("a"), &facts).unwrap_err(), "no such file");
}

#[test]
fn the_generic_preview_describes_binaries() {
    let header = |name: &str, size: u64, kind: &str| format!("📄 File: {}\n📁 Size: {} bytes\n🔧 Type: {}\n\n", name, size, kind);
    let with = |tool: &str, output: Option<&str>| vec![report(tool, output)];
    assert_eq!(
        binary_of(describe(&path("a.docx"), 10, &Vec::new())),
        format!("{}⚠️ Install 'pandoc' to preview Word documents", header("a.docx", 10, "docx"))
    );
    assert_eq!(
        text_of(describe(&path("a.doc"), 10, &with("pandoc", Some(&"w".repeat(6000))))),
        format!("{}{}", header("a.doc", 10, "doc"), "w".repeat(5000))
    );
    assert_eq!(
        binary_of(describe(&path("a.xlsx"), 1, &Vec::new())),
        format!("{}⚠️ Install 'xlsx2csv' to preview Excel files", header("a.xlsx", 1, "xlsx"))
    );
    assert_eq!(
        text_of(describe(&path("a.xls"), 1, &with("xlsx2csv", Some("1,2")))),
        format!("{}1,2", header("a.xls", 1, "xls"))
    );
    assert_eq!(
        binary_of(describe(&path("a.ppt"), 1, &with("pdftotext", Some("x")))),
        format!("{}⚠️ Install 'libreoffice' to convert PowerPoint", header("a.ppt", 1, "ppt"))
    );
    assert_eq!(
        binary_of(describe(&path("a.zip"), 1, &with("unzip", Some(&"l".repeat(3001))))),
        format!("{}\n📦 Archive contents:\n{}", header("a.zip", 1, "zip"), "l".repeat(3000))
    );
    assert_eq!(binary_of(describe(&path("a.tar"), 1, &with("unzip", Some("x")))), header("a.tar", 1, "tar"));
    assert_eq!(
        binary_of(describe(&path("a.7z"), 1, &with("7z", Some("x")))),
        format!("{}\n📦 Archive contents:\nx", header("a.7z", 1, "7z"))
    );
    assert_eq!(
        binary_of(describe(&path("a.mp3"), 77, &Vec::new())),
        format!("{}\n🎵 Audio file: 77 bytes", header("a.mp3", 77, "mp3"))
    );
    assert_eq!(
        text_of(describe(&path("a.wav"), 77, &with("mediainfo", Some("PCM")))),
        format!("{}PCM", header("a.wav", 77, "wav"))
    );
    assert_eq!(
        binary_of(describe(&path("a.mp4"), 78, &with("mediainfo", None))),
        format!("{}\n🎬 Video file: 78 bytes", header("a.mp4", 78, "mp4"))
    );
    assert_eq!(
        binary_of(describe(&path("a.exe"), 1, &with("file", Some("PE32")))),
        format!("{}\n🔧 PE32", header("a.exe", 1, "exe"))
    );
    assert_eq!(
        binary_of(describe(&path("a.iso"), 1, &with("isoinfo", Some("/boot")))),
        format!("{}\n💿 ISO contents:\n/boot", header("a.iso", 1, "iso"))
    );
    assert_eq!(
        binary_of(describe(&path("blob"), 1, &with("file", Some("data")))),
        format!("{}\n🔍 Detected: data", header("blob", 1, "unknown"))
    );
    let nameless = FilePath { text: "/".to_string(), file_name: None, extension: None };
    assert_eq!(binary_of(describe(&nameless, 0, &Vec::new())), header("Unknown", 0, "unknown"));
    let facts = FileFacts { size: Ok(5), text: Err("binary".to_string()), tools: with("file", Some("ELF")) };
    assert_eq!(
        binary_of(GenericPreview.generate_preview(&path("a.so"), &facts).unwrap()),
        format!("{}\n🔧 ELF", header("a.so", 5, "so"))
    );
}

#[test]
fn helpers_on_facts() {
    let tools = vec![report("a", None), report("b", Some("first")), report("b", Some("second"))];
    assert_eq!(find_tool_output(&tools, "b").map(|s| s.as_str()), Some("first"));
    assert!(find_tool_output(&tools, "a").is_none());
    assert!(find_tool_output(&tools, "c").is_none());
    assert!(has_extension_in(&path("a.X"), &vec!["x", "y"]));
    assert!(!has_extension_in(&path("a.z"), &vec!["x", "y"]));
    assert!(!has_extension_in(&path("a"), &vec!["x"]));
    assert_eq!(leading_lines("a\nb\nc", 2), vec!["a", "b"]);
    assert_eq!(leading_lines("a\nb\nc", 5), vec!["a", "b", "c"]);
    assert_eq!(leading_lines("a\nb", 0), Vec::<String>::new());
    assert_eq!(head_of("héllo", 2), "hé");
    assert_eq!(head_of("héllo", 9), "héllo");
}
