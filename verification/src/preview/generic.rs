//! Any file at all: its text if it can be read as text, and otherwise a
//! description with what an external inspector found.

use vstd::prelude::*;
use vstd::string::*;
use crate::preview::{
    find_tool_output,
    tool_output,
    Content,
    FileFacts,
    FilePath,
    PreviewContent,
    PreviewProvider,
    ToolReport,
    ToolRequest,
};
use crate::utils::text::{decimal, decimal_text, same_text, texts};

verus! {

/// The classes of file that are described differently.
#[derive(Debug, Clone, Copy, PartialEq, Eq, Structural)]
pub enum FileKind {
    Word,
    Sheet,
    Slides,
    Zip,
    Tar,
    SevenZip,
    Audio,
    Video,
    Executable,
    DiskImage,
    Other,
}

/// The class of a file, told by its extension in its exact spelling.
pub open spec fn kind_of(e: Seq<char>) -> FileKind {
    if e == "doc"@ || e == "docx"@ {
        FileKind::Word
    } else if e == "xlsx"@ || e == "xls"@ {
        FileKind::Sheet
    } else if e == "pptx"@ || e == "ppt"@ {
        FileKind::Slides
    } else if e == "zip"@ {
        FileKind::Zip
    } else if e == "tar"@ || e == "gz"@ {
        FileKind::Tar
    } else if e == "rar"@ || e == "7z"@ {
        FileKind::SevenZip
    } else if e == "mp3"@ || e == "wav"@ || e == "flac"@ || e == "ogg"@ || e == "m4a"@ {
        FileKind::Audio
    } else if e == "mp4"@ || e == "avi"@ || e == "mkv"@ || e == "mov"@ || e == "webm"@ {
        FileKind::Video
    } else if e == "exe"@ || e == "dll"@ || e == "so"@ || e == "dylib"@ {
        FileKind::Executable
    } else if e == "iso"@ {
        FileKind::DiskImage
    } else {
        FileKind::Other
    }
}

/// The program that inspects files of a class, if there is one.
pub open spec fn inspector(kind: FileKind) -> Option<Seq<char>> {
    match kind {
        FileKind::Word => Some("pandoc"@),
        FileKind::Sheet => Some("xlsx2csv"@),
        FileKind::Slides => None,
        FileKind::Zip => Some("unzip"@),
        FileKind::Tar => Some("tar"@),
        FileKind::SevenZip => Some("7z"@),
        FileKind::Audio => Some("mediainfo"@),
        FileKind::Video => Some("mediainfo"@),
        FileKind::Executable => Some("file"@),
        FileKind::DiskImage => Some("isoinfo"@),
        FileKind::Other => Some("file"@),
    }
}

/// The arguments with which the inspector of a class is run on a path.
pub open spec fn inspector_args(kind: FileKind, path: Seq<char>) -> Seq<Seq<char>> {
    match kind {
        FileKind::Word => seq!["-t"@, "plain"@, path],
        FileKind::Zip => seq!["-l"@, path],
        FileKind::Tar => seq!["-tvf"@, path],
        FileKind::SevenZip => seq!["l"@, path],
        FileKind::DiskImage => seq!["-l"@, "-i"@, path],
        _ => seq![path],
    }
}

/// `text`, or its first `limit` characters where it is longer.
pub open spec fn head(text: Seq<char>, limit: nat) -> Seq<char> {
    if text.len() > limit {
        text.take(limit as int)
    } else {
        text
    }
}

/// A text as the generic preview shows it: whole if it takes no more than
/// 5000 bytes in UTF-8, else its first 5000 characters and a note that it
/// was cut.
pub open spec fn shortened(text: Seq<char>) -> Seq<char> {
    if vstd::utf8::encode_utf8(text).len() > 5000 {
        head(text, 5000) + "\n\n... (truncated)"@
    } else {
        text
    }
}

/// The lines that head every description: name, size and type.
pub open spec fn header(name: Seq<char>, size: u64, extension: Seq<char>) -> Seq<char> {
    "📄 File: "@ + name + "\n📁 Size: "@ + decimal_text(size as nat) + " bytes\n🔧 Type: "@
        + extension + "\n\n"@
}

/// The name that a description gives the file.
pub open spec fn shown_name(path: FilePath) -> Seq<char> {
    match path.file_name {
        Some(n) => n@,
        None => "Unknown"@,
    }
}

/// The extension that a description gives the file.
pub open spec fn shown_extension(path: FilePath) -> Seq<char> {
    match path.extension {
        Some(e) => e@,
        None => "unknown"@,
    }
}

/// What the inspector of the file's class printed, if it ran well.
pub open spec fn inspection(path: FilePath, tools: Seq<ToolReport>) -> Option<
    Seq<char>,
> {
    match inspector(kind_of(shown_extension(path))) {
        Some(program) => tool_output(tools, program),
        None => None,
    }
}

/// The description of a file that cannot be read as text. Documents and
/// media whose inspector printed something are shown as that text under
/// the header; everything else is a binary description: the header, and
/// what the inspector found or a hint at what to install.
pub open spec fn described(path: FilePath, size: u64, tools: Seq<ToolReport>) -> Content {
    let info = header(shown_name(path), size, shown_extension(path));
    let found = inspection(path, tools);
    match kind_of(shown_extension(path)) {
        FileKind::Word => match found {
            Some(out) => Content::Text(info + head(out, 5000)),
            None => Content::Binary(info + "⚠️ Install 'pandoc' to preview Word documents"@),
        },
        FileKind::Sheet => match found {
            Some(out) => Content::Text(info + head(out, 5000)),
            None => Content::Binary(info + "⚠️ Install 'xlsx2csv' to preview Excel files"@),
        },
        FileKind::Slides => Content::Binary(
            info + "⚠️ Install 'libreoffice' to convert PowerPoint"@,
        ),
        FileKind::Zip | FileKind::Tar | FileKind::SevenZip => match found {
            Some(out) => Content::Binary(info + "\n📦 Archive contents:\n"@ + head(out, 3000)),
            None => Content::Binary(info),
        },
        FileKind::Audio => match found {
            Some(out) => Content::Text(info + out),
            None => Content::Binary(
                info + "\n🎵 Audio file: "@ + decimal_text(size as nat) + " bytes"@,
            ),
        },
        FileKind::Video => match found {
            Some(out) => Content::Text(info + out),
            None => Content::Binary(
                info + "\n🎬 Video file: "@ + decimal_text(size as nat) + " bytes"@,
            ),
        },
        FileKind::Executable => match found {
            Some(out) => Content::Binary(info + "\n🔧 "@ + out),
            None => Content::Binary(info),
        },
        FileKind::DiskImage => match found {
            Some(out) => Content::Binary(info + "\n💿 ISO contents:\n"@ + head(out, 3000)),
            None => Content::Binary(info),
        },
        FileKind::Other => match found {
            Some(out) => Content::Binary(info + "\n🔍 Detected: "@ + out),
            None => Content::Binary(info),
        },
    }
}

/// The class of a file with this extension.
pub fn classify(e: &str) -> (kind: FileKind)
    ensures
        kind == kind_of(e@),
{
    if same_text(e, "doc") || same_text(e, "docx") {
        FileKind::Word
    } else if same_text(e, "xlsx") || same_text(e, "xls") {
        FileKind::Sheet
    } else if same_text(e, "pptx") || same_text(e, "ppt") {
        FileKind::Slides
    } else if same_text(e, "zip") {
        FileKind::Zip
    } else if same_text(e, "tar") || same_text(e, "gz") {
        FileKind::Tar
    } else if same_text(e, "rar") || same_text(e, "7z") {
        FileKind::SevenZip
    } else if same_text(e, "mp3") || same_text(e, "wav") || same_text(e, "flac") || same_text(
        e,
        "ogg",
    ) || same_text(e, "m4a") {
        FileKind::Audio
    } else if same_text(e, "mp4") || same_text(e, "avi") || same_text(e, "mkv") || same_text(
        e,
        "mov",
    ) || same_text(e, "webm") {
        FileKind::Video
    } else if same_text(e, "exe") || same_text(e, "dll") || same_text(e, "so") || same_text(
        e,
        "dylib",
    ) {
        FileKind::Executable
    } else if same_text(e, "iso") {
        FileKind::DiskImage
    } else {
        FileKind::Other
    }
}

/// `text`, or its first `limit` characters where it is longer.
pub fn head_of(text: &str, limit: usize) -> (cut: String)
    ensures
        cut@ == head(text@, limit as nat),
{
    if text.unicode_len() > limit {
        let cut = String::from_str(text.substring_char(0, limit));
        assert(cut@ == text@.take(limit as int));
        cut
    } else {
        String::from_str(text)
    }
}

/// The name of the program that inspects files of a class.
fn inspector_name(kind: FileKind) -> (name: Option<&'static str>)
    ensures
        match name {
            Some(n) => inspector(kind) == Some(n@),
            None => inspector(kind) is None,
        },
{
    match kind {
        FileKind::Word => Some("pandoc"),
        FileKind::Sheet => Some("xlsx2csv"),
        FileKind::Slides => None,
        FileKind::Zip => Some("unzip"),
        FileKind::Tar => Some("tar"),
        FileKind::SevenZip => Some("7z"),
        FileKind::Audio => Some("mediainfo"),
        FileKind::Video => Some("mediainfo"),
        FileKind::Executable => Some("file"),
        FileKind::DiskImage => Some("isoinfo"),
        FileKind::Other => Some("file"),
    }
}

/// The first lines of every description.
fn header_of(name: &str, size: u64, extension: &str) -> (info: String)
    ensures
        info@ == header(name@, size, extension@),
{
    let mut info = String::from_str("📄 File: ");
    info.append(name);
    info.append("\n📁 Size: ");
    info.append(decimal(size).as_str());
    info.append(" bytes\n🔧 Type: ");
    info.append(extension);
    info.append("\n\n");
    info
}

/// The description of a file that cannot be read as text.
pub fn describe(path: &FilePath, size: u64, tools: &Vec<ToolReport>) -> (content:
    PreviewContent)
    ensures
        content@ == described(*path, size, tools@),
{
    let name = match &path.file_name {
        Some(n) => n.as_str(),
        None => "Unknown",
    };
    let extension = match &path.extension {
        Some(e) => e.as_str(),
        None => "unknown",
    };
    let mut info = header_of(name, size, extension);
    let kind = classify(extension);
    let found = match inspector_name(kind) {
        Some(program) => find_tool_output(tools, program),
        None => None,
    };
    assert(match found {
        Some(out) => inspection(*path, tools@) == Some(out@),
        None => inspection(*path, tools@) is None,
    });
    match kind {
        FileKind::Word => match found {
            Some(out) => {
                info.append(head_of(out.as_str(), 5000).as_str());
                PreviewContent::Text(info)
            },
            None => {
                info.append("⚠️ Install 'pandoc' to preview Word documents");
                PreviewContent::Binary(info)
            },
        },
        FileKind::Sheet => match found {
            Some(out) => {
                info.append(head_of(out.as_str(), 5000).as_str());
                PreviewContent::Text(info)
            },
            None => {
                info.append("⚠️ Install 'xlsx2csv' to preview Excel files");
                PreviewContent::Binary(info)
            },
        },
        FileKind::Slides => {
            info.append("⚠️ Install 'libreoffice' to convert PowerPoint");
            PreviewContent::Binary(info)
        },
        FileKind::Zip | FileKind::Tar | FileKind::SevenZip => match found {
            Some(out) => {
                info.append("\n📦 Archive contents:\n");
                info.append(head_of(out.as_str(), 3000).as_str());
                PreviewContent::Binary(info)
            },
            None => PreviewContent::Binary(info),
        },
        FileKind::Audio => match found {
            Some(out) => {
                info.append(out.as_str());
                PreviewContent::Text(info)
            },
            None => {
                info.append("\n🎵 Audio file: ");
                info.append(decimal(size).as_str());
                info.append(" bytes");
                PreviewContent::Binary(info)
            },
        },
        FileKind::Video => match found {
            Some(out) => {
                info.append(out.as_str());
                PreviewContent::Text(info)
            },
            None => {
                info.append("\n🎬 Video file: ");
                info.append(decimal(size).as_str());
                info.append(" bytes");
                PreviewContent::Binary(info)
            },
        },
        FileKind::Executable => match found {
            Some(out) => {
                info.append("\n🔧 ");
                info.append(out.as_str());
                PreviewContent::Binary(info)
            },
            None => PreviewContent::Binary(info),
        },
        FileKind::DiskImage => match found {
            Some(out) => {
                info.append("\n💿 ISO contents:\n");
                info.append(head_of(out.as_str(), 3000).as_str());
                PreviewContent::Binary(info)
            },
            None => PreviewContent::Binary(info),
        },
        FileKind::Other => match found {
            Some(out) => {
                info.append("\n🔍 Detected: ");
                info.append(out.as_str());
                PreviewContent::Binary(info)
            },
            None => PreviewContent::Binary(info),
        },
    }
}

/// Previews any file. It is the provider of last resort: it claims every
/// path.
pub struct GenericPreview;

impl GenericPreview {
    /// The program that inspects the file at `path` where it cannot be read
    /// as text: one request, or none for a class without an inspector.
    pub fn commands(&self, path: &FilePath) -> (requests: Vec<ToolRequest>)
        ensures
            match inspector(kind_of(shown_extension(*path))) {
                Some(program) => requests.len() == 1 && requests[0].program@ == program && texts(
                    requests[0].args@,
                ) == inspector_args(kind_of(shown_extension(*path)), path.text@),
                None => requests.len() == 0,
            },
    {
        let extension = match &path.extension {
            Some(e) => e.as_str(),
            None => "unknown",
        };
        let kind = classify(extension);
        let mut requests: Vec<ToolRequest> = Vec::new();
        match inspector_name(kind) {
            Some(program) => {
                let mut args: Vec<String> = Vec::new();
                match kind {
                    FileKind::Word => {
                        args.push(String::from_str("-t"));
                        args.push(String::from_str("plain"));
                    },
                    FileKind::Zip => {
                        args.push(String::from_str("-l"));
                    },
                    FileKind::Tar => {
                        args.push(String::from_str("-tvf"));
                    },
                    FileKind::SevenZip => {
                        args.push(String::from_str("l"));
                    },
                    FileKind::DiskImage => {
                        args.push(String::from_str("-l"));
                        args.push(String::from_str("-i"));
                    },
                    _ => {},
                }
                args.push(path.text.clone());
                assert(texts(args@) =~= inspector_args(kind, path.text@));
                requests.push(ToolRequest { program: String::from_str(program), args });
            },
            None => {},
        }
        requests
    }
}

impl PreviewProvider for GenericPreview {
    open spec fn claims(&self, path: FilePath) -> bool {
        true
    }

    /// A failure where the file's size could not be had; the file's text,
    /// shortened, where it could be read; else its description.
    open spec fn preview(&self, path: FilePath, facts: FileFacts) -> Result<Content, Seq<char>> {
        match facts.size {
            Err(message) => Err(message@),
            Ok(size) => match facts.text {
                Ok(text) => Ok(Content::Text(shortened(text@))),
                Err(_) => Ok(described(path, size, facts.tools@)),
            },
        }
    }

    fn can_preview(&self, path: &FilePath) -> (claimed: bool) {
        true
    }

    fn generate_preview(&self, path: &FilePath, facts: &FileFacts) -> (outcome: Result<
        PreviewContent,
        String,
    >) {
        let size = match &facts.size {
            Ok(size) => *size,
            Err(message) => {
                return Err(message.clone());
            },
        };
        match &facts.text {
            Ok(text) => {
                if text.as_str().as_bytes().len() > 5000 {
                    let mut cut = head_of(text.as_str(), 5000);
                    cut.append("\n\n... (truncated)");
                    Ok(PreviewContent::Text(cut))
                } else {
                    Ok(PreviewContent::Text(text.clone()))
                }
            },
            Err(_) => Ok(describe(path, size, &facts.tools)),
        }
    }
}

} // verus!
