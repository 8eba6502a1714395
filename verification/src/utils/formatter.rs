//! Formatters for LDAP filters and JSON documents.

use vstd::prelude::*;
use vstd::string::*;
use serde::Serialize;

verus! {

/// `serde_json::Value`, a JSON value of any shape. Nothing is said of what
/// it holds; it is only handed from the parser to a writer.
#[verifier::external_type_specification]
#[verifier::external_body]
pub struct ExJsonValue(serde_json::Value);

/// `serde_json::Error`, the error of the parser and of the writers. Nothing
/// is said of what it holds.
#[verifier::external_type_specification]
#[verifier::external_body]
pub struct ExJsonError(serde_json::Error);

/// Whether `serde_json::from_str` accepts a text as one JSON value.
pub uninterp spec fn json_valid(content: Seq<char>) -> bool;

/// The text in which `Regex::replace_all` has replaced every match of
/// `pattern` in `text` by `replacement`; nothing where `Regex::new` refuses
/// the pattern.
pub uninterp spec fn regex_replaced(
    pattern: Seq<char>,
    text: Seq<char>,
    replacement: Seq<char>,
) -> Option<Seq<char>>;

/// `serde_json::from_str` reads a text as one JSON value, or says why it is
/// none. Whether it accepts a text depends on the text alone.
#[verifier::external_body]
fn parse_json(content: &str) -> (parsed: Result<serde_json::Value, serde_json::Error>)
    ensures
        parsed is Ok <==> json_valid(content@),
{
    serde_json::from_str(content)
}

/// The message of a `serde_json::Error`, as its `Display` writes it.
#[verifier::external_body]
fn json_error_message(error: &serde_json::Error) -> (message: String) {
    error.to_string()
}

/// `serde_json::to_string` writes a value without any white space between
/// its parts.
#[verifier::external_body]
fn write_compact(value: &serde_json::Value) -> (written: Result<String, serde_json::Error>) {
    serde_json::to_string(value)
}

/// Writes a value through a `serde_json::Serializer` whose
/// `PrettyFormatter` indents each level by `indent`, and hands back the
/// bytes that were written.
#[verifier::external_body]
fn write_pretty(value: &serde_json::Value, indent: &Vec<u8>) -> (written: Result<
    Vec<u8>,
    serde_json::Error,
>) {
    let formatter = serde_json::ser::PrettyFormatter::with_indent(indent.as_slice());
    let mut buffer = Vec::new();
    let mut serializer = serde_json::Serializer::with_formatter(&mut buffer, formatter);
    match value.serialize(&mut serializer) {
        Ok(()) => Ok(buffer),
        Err(error) => Err(error),
    }
}

/// `String::from_utf8` turns bytes into the string that they encode in
/// UTF-8, and fails exactly on bytes that encode none; the failure is
/// handed back as its message.
#[verifier::external_body]
fn text_of_utf8(bytes: Vec<u8>) -> (text: Result<String, String>)
    ensures
        text is Ok <==> vstd::utf8::valid_utf8(bytes@),
        text matches Ok(s) ==> s@ == vstd::utf8::decode_utf8(bytes@),
{
    String::from_utf8(bytes).map_err(|error| error.to_string())
}

/// Compiles `pattern` with `Regex::new` and replaces every match in `text`
/// by `replacement` with `Regex::replace_all`, in whose replacement `$1`
/// stands for what the first group matched. A pattern that `Regex::new`
/// refuses gives nothing.
#[verifier::external_body]
fn replace_all(pattern: &str, text: &str, replacement: &str) -> (replaced: Option<String>)
    ensures
        crate::utils::text::optional_text(replaced) == regex_replaced(
            pattern@,
            text@,
            replacement@,
        ),
{
    match regex::Regex::new(pattern) {
        Ok(regex) => Some(regex.replace_all(text, replacement).into_owned()),
        Err(_) => None,
    }
}

/// The indentation in force behind `text`: each opening parenthesis adds
/// two columns, each closing one takes two away as far as there are any.
pub open spec fn indent_after(text: Seq<char>) -> nat
    decreases text.len(),
{
    if text.len() == 0 {
        0
    } else {
        let before = indent_after(text.drop_last());
        if text.last() == '(' {
            before + 2
        } else if text.last() == ')' {
            if before >= 2 {
                (before - 2) as nat
            } else {
                0
            }
        } else {
            before
        }
    }
}

/// `count` spaces.
pub open spec fn spaces(count: nat) -> Seq<char> {
    Seq::new(count, |i: int| ' ')
}

/// What one character of a filter becomes, given the indentation in force
/// before it. A closing parenthesis goes onto a line of its own, indented
/// by what is in force after it; an operator goes onto a new line behind
/// two spaces; every other character stays as it is.
pub open spec fn laid_out_char(ch: char, indent: nat) -> Seq<char> {
    if ch == ')' {
        seq!['\n'] + spaces(
            if indent >= 2 {
                (indent - 2) as nat
            } else {
                0
            },
        ) + seq![')']
    } else if ch == '|' || ch == '&' {
        seq!['\n', ' ', ' ', ch]
    } else {
        seq![ch]
    }
}

/// An LDAP filter laid out over several lines.
pub open spec fn laid_out(filter: Seq<char>) -> Seq<char>
    decreases filter.len(),
{
    if filter.len() == 0 {
        Seq::empty()
    } else {
        laid_out(filter.drop_last()) + laid_out_char(
            filter.last(),
            indent_after(filter.drop_last()),
        )
    }
}

/// The indentation never exceeds two columns for each character read.
proof fn lemma_indent_bound(text: Seq<char>)
    ensures
        indent_after(text) <= 2 * text.len(),
    decreases text.len(),
{
    if text.len() > 0 {
        lemma_indent_bound(text.drop_last());
    }
}

/// Lays an LDAP filter out over several lines, so that its nesting shows.
pub fn format_ldap_filter(filter: &str) -> (formatted: String)
    ensures
        formatted@ == laid_out(filter@),
{
    let mut formatted = String::new();
    let mut indent: u128 = 0;
    // The count bounds the indentation, which therefore fits.
    let total = filter.unicode_len();
    assert(filter@.take(0) == Seq::<char>::empty());
    for ch in it: filter.chars()
        invariant
            it.seq() == filter@,
            filter@.len() == total,
            indent == indent_after(filter@.take(it.index() as int)),
            formatted@ == laid_out(filter@.take(it.index() as int)),
    {
        proof {
            let at = it.index() as int;
            assert(filter@.take(at + 1).drop_last() == filter@.take(at));
            assert(filter@.take(at + 1).last() == ch);
            lemma_indent_bound(filter@.take(at));
        }
        let ghost before = formatted@;
        if ch == '(' {
            formatted.push(ch);
            indent = indent + 2;
        } else if ch == ')' {
            indent = if indent >= 2 {
                indent - 2
            } else {
                0
            };
            formatted.push('\n');
            let mut k: u128 = 0;
            while k < indent
                invariant
                    0 <= k <= indent,
                    formatted@ == before + seq!['\n'] + spaces(k as nat),
                decreases indent - k,
            {
                formatted.push(' ');
                k = k + 1;
            }
            formatted.push(ch);
            assert(formatted@ == before + laid_out_char(ch, (indent + 2) as nat)) by {
                assert(formatted@ =~= before + (seq!['\n'] + spaces(indent as nat) + seq![')']));
            }
        } else if ch == '|' || ch == '&' {
            formatted.append("\n  ");
            formatted.push(ch);
            proof {
                reveal_strlit("\n  ");
                assert(formatted@ =~= before + seq!['\n', ' ', ' ', ch]);
            }
        } else {
            formatted.push(ch);
        }
    }
    assert(filter@.take(filter@.len() as int) == filter@);
    formatted
}

/// The error for a text that is no JSON, given why it is none.
pub fn invalid_json(reason: &str) -> (message: String)
    ensures
        message@ == "Invalid JSON: "@ + reason@,
{
    let mut message = String::from_str("Invalid JSON: ");
    message.append(reason);
    message
}

/// The error for a value that could not be written, given why.
pub fn serialization_error(reason: &str) -> (message: String)
    ensures
        message@ == "Serialization error: "@ + reason@,
{
    let mut message = String::from_str("Serialization error: ");
    message.append(reason);
    message
}

/// `count` spaces as bytes.
fn indentation(count: usize) -> (bytes: Vec<u8>)
    ensures
        bytes@ == Seq::new(count as nat, |i: int| 32u8),
{
    let mut bytes: Vec<u8> = Vec::new();
    let mut i: usize = 0;
    while i < count
        invariant
            0 <= i <= count,
            bytes@ == Seq::new(i as nat, |k: int| 32u8),
        decreases count - i,
    {
        bytes.push(32u8);
        i += 1;
    }
    bytes
}

/// Writes the JSON value that `content` holds anew, each level of nesting
/// indented by `indent` spaces. A text that is no JSON value gives an
/// error that starts with `Invalid JSON: `; no other input does.
pub fn format_json(content: &str, indent: usize) -> (formatted: Result<String, String>)
    ensures
        !json_valid(content@) ==> formatted is Err && "Invalid JSON: "@.is_prefix_of(
            formatted->Err_0@,
        ),
        formatted is Ok ==> json_valid(content@),
{
    let value = match parse_json(content) {
        Ok(value) => value,
        Err(error) => {
            let reason = json_error_message(&error);
            return Err(invalid_json(reason.as_str()));
        },
    };
    let bytes = match write_pretty(&value, &indentation(indent)) {
        Ok(bytes) => bytes,
        Err(error) => {
            let reason = json_error_message(&error);
            return Err(serialization_error(reason.as_str()));
        },
    };
    text_of_utf8(bytes)
}

/// Writes the JSON value that `content` holds anew without white space. A
/// text that is no JSON value gives an error that starts with
/// `Invalid JSON: `.
pub fn minify_json(content: &str) -> (minified: Result<String, String>)
    ensures
        !json_valid(content@) ==> minified is Err && "Invalid JSON: "@.is_prefix_of(
            minified->Err_0@,
        ),
        minified is Ok ==> json_valid(content@),
{
    let value = match parse_json(content) {
        Ok(value) => value,
        Err(error) => {
            let reason = json_error_message(&error);
            return Err(invalid_json(reason.as_str()));
        },
    };
    match write_compact(&value) {
        Ok(text) => Ok(text),
        Err(error) => Err(json_error_message(&error)),
    }
}

/// What a replacement leaves of `text`: the replaced text, or `text`
/// itself where the pattern was refused.
pub open spec fn replaced_or_kept(
    pattern: Seq<char>,
    text: Seq<char>,
    replacement: Seq<char>,
) -> Seq<char> {
    match regex_replaced(pattern, text, replacement) {
        Some(replaced) => replaced,
        None => text,
    }
}

/// An LDAP filter or distinguished name after four replacements in turn: a
/// line feed behind every closing parenthesis; `(|` and `(&` written as
/// they are; and a line feed behind every comma that stands before
/// letters and an equals sign.
pub open spec fn ldap_formatted(content: Seq<char>) -> Seq<char> {
    let closed = replaced_or_kept("\\)"@, content, ")\n"@);
    let any = replaced_or_kept("\\(\\|"@, closed, "(|"@);
    let all = replaced_or_kept("\\(\\&"@, any, "(&"@);
    replaced_or_kept(",([A-Za-z]+=)"@, all, ",\n$1"@)
}

/// The text that a replacement leaves: `replaced` if there is one, else
/// `text`.
pub fn replaced_or(text: String, replaced: Option<String>) -> (kept: String)
    ensures
        kept@ == match replaced {
            Some(r) => r@,
            None => text@,
        },
{
    match replaced {
        Some(r) => r,
        None => text,
    }
}

/// One replacement of the four.
fn replace_step(text: String, pattern: &str, replacement: &str) -> (next: String)
    ensures
        next@ == replaced_or_kept(pattern@, text@, replacement@),
{
    let replaced = replace_all(pattern, text.as_str(), replacement);
    replaced_or(text, replaced)
}

/// Breaks an LDAP filter behind its closing parentheses and a
/// distinguished name behind its commas.
pub fn format_ldap(content: &str) -> (formatted: String)
    ensures
        formatted@ == ldap_formatted(content@),
{
    let closed = replace_step(String::from_str(content), "\\)", ")\n");
    let any = replace_step(closed, "\\(\\|", "(|");
    let all = replace_step(any, "\\(\\&", "(&");
    replace_step(all, ",([A-Za-z]+=)", ",\n$1")
}

} // verus!
