//! Plain-text extraction from heterogeneous file formats, with a
//! full-text-searchable store behind a bounded connection pool.
//!
//! The crate decodes raw bytes into text with a deterministic fallback
//! chain, strips format-specific markup (CSV, JSON, Markdown, XML, YAML,
//! TOML/INI, SQL, PDF), classifies unrecognized content as text or binary,
//! and ingests the result into an SQLite full-text index, deduplicated by
//! a caller-supplied identifier.

use vstd::prelude::*;

pub mod classify;
pub mod db;
pub mod decode;
pub mod json_tree;
pub mod parsers;
pub mod text;

verus! {

/// The error kinds surfaced by the pipeline.
///
/// `Configuration`: the store was used before initialization, or
/// initialized twice. `Io`: a file could not be read, or PDF extraction
/// failed. `Store`: a connection, query or insert against the persistent
/// store failed. `Duplicate`: the identifier is already indexed; an
/// expected rejection, not a fault.
#[derive(Clone, Copy, Debug, PartialEq, Eq, Structural)]
pub enum PipelineError {
    Configuration,
    Io,
    Store,
    Duplicate,
}

/// Largest index strictly below `upto` holding `c`, or `-1`.
pub open spec fn last_idx_of(s: Seq<char>, upto: int, c: char) -> int
    decreases upto,
        when 0 <= upto <= s.len()
{
    if upto <= 0 {
        -1
    } else if s[upto - 1] == c {
        upto - 1
    } else {
        last_idx_of(s, upto - 1, c)
    }
}

fn last_idx2(v: &Vec<char>, upto: usize, c: char) -> (r: Option<usize>)
    requires
        upto <= v.len(),
    ensures
        r is Some ==> r->0 == last_idx_of(v@, upto as int, c) && r->0 < upto,
        r is None ==> last_idx_of(v@, upto as int, c) == -1,
    decreases upto,
{
    if upto == 0 {
        None
    } else if v[upto - 1] == c {
        Some(upto - 1)
    } else {
        last_idx2(v, upto - 1, c)
    }
}

/// The path's final component: everything after the last `/`, and
/// empty for a path that ends in a separator. The split is on `/`
/// alone, with none of the standard path API's handling of `..` or
/// trailing separators.
pub open spec fn base_name_of(p: Seq<char>) -> Seq<char> {
    p.subrange(last_idx_of(p, p.len() as int, '/') + 1, p.len() as int)
}

/// The name shown in the binary placeholder: the path's final
/// component, or a stand-in when the path has none.
pub open spec fn display_name(p: Seq<char>) -> Seq<char> {
    if base_name_of(p).len() > 0 {
        base_name_of(p)
    } else {
        "binary_file"@
    }
}

/// The extension of the path's final component: everything after its
/// last `.`, or empty when there is no `.` past the first character.
pub open spec fn ext_of(p: Seq<char>) -> Seq<char> {
    let name = base_name_of(p);
    let d = last_idx_of(name, name.len() as int, '.');
    if d <= 0 {
        Seq::empty()
    } else {
        name.subrange(d + 1, name.len() as int)
    }
}

/// The dispatch key: the extension, ASCII lower-cased. A non-ASCII
/// upper-case letter is kept as it is — it would match no table key in
/// any case.
pub open spec fn ext_key(p: Seq<char>) -> Seq<char> {
    text::lower_of(ext_of(p))
}

/// The formats the dispatcher recognizes, plus the fallback.
pub enum FormatKind {
    PlainText,
    Csv,
    Json,
    Markdown,
    Xml,
    Yaml,
    Toml,
    Ini,
    Sql,
    Pdf,
    Other,
}

/// The dispatch table, keyed by the lower-cased extension.
pub open spec fn format_of(ext: Seq<char>) -> FormatKind {
    if ext == "txt"@ || ext == "log"@ || ext == "text"@ {
        FormatKind::PlainText
    } else if ext == "csv"@ {
        FormatKind::Csv
    } else if ext == "json"@ {
        FormatKind::Json
    } else if ext == "md"@ || ext == "markdown"@ {
        FormatKind::Markdown
    } else if ext == "xml"@ || ext == "html"@ || ext == "htm"@ {
        FormatKind::Xml
    } else if ext == "yaml"@ || ext == "yml"@ {
        FormatKind::Yaml
    } else if ext == "toml"@ {
        FormatKind::Toml
    } else if ext == "ini"@ || ext == "cfg"@ || ext == "conf"@ {
        FormatKind::Ini
    } else if ext == "sql"@ {
        FormatKind::Sql
    } else if ext == "pdf"@ {
        FormatKind::Pdf
    } else {
        FormatKind::Other
    }
}

/// The string returned for content classified as binary.
pub open spec fn binary_placeholder(p: Seq<char>) -> Seq<char> {
    "[Binary file: "@ + display_name(p) + seq![']']
}

fn path_parts(path: &str) -> (r: (Vec<char>, Vec<char>))
    ensures
        r.0@ == base_name_of(path@),
        r.1@ == ext_key(path@),
{
    let pchars = text::string_to_chars(path);
    let name_start: usize = match last_idx2(&pchars, pchars.len(), '/') {
        Some(i) => i + 1,
        None => 0,
    };
    let name = text::slice_of(&pchars, name_start, pchars.len());
    proof {
        assert(name@ == base_name_of(path@));
    }
    let ext_raw: Vec<char> = match last_idx2(&name, name.len(), '.') {
        Some(d) => {
            if d > 0 {
                text::slice_of(&name, d + 1, name.len())
            } else {
                Vec::new()
            }
        },
        None => Vec::new(),
    };
    proof {
        assert(ext_raw@ =~= ext_of(path@));
    }
    let ext = text::to_lower(&ext_raw);
    (name, ext)
}

/// Whether the dispatcher routes this path to the PDF extractor — the
/// one route whose outside text recovery the caller performs before
/// handing `parse_file` the outcome.
pub fn pdf_route(path: &str) -> (r: bool)
    ensures
        r == (format_of(ext_key(path@)) is Pdf),
{
    let parts = path_parts(path);
    let ext = parts.1;
    if text::chars_eq_str(&ext, "txt") || text::chars_eq_str(&ext, "log") || text::chars_eq_str(
        &ext,
        "text",
    ) || text::chars_eq_str(&ext, "csv") || text::chars_eq_str(&ext, "json")
        || text::chars_eq_str(&ext, "md") || text::chars_eq_str(&ext, "markdown")
        || text::chars_eq_str(&ext, "xml") || text::chars_eq_str(&ext, "html")
        || text::chars_eq_str(&ext, "htm") || text::chars_eq_str(&ext, "yaml")
        || text::chars_eq_str(&ext, "yml") || text::chars_eq_str(&ext, "toml")
        || text::chars_eq_str(&ext, "ini") || text::chars_eq_str(&ext, "cfg")
        || text::chars_eq_str(&ext, "conf") || text::chars_eq_str(&ext, "sql") {
        false
    } else {
        text::chars_eq_str(&ext, "pdf")
    }
}

/// Extracts plain text from a file's raw bytes, routed by the
/// lower-cased extension of `path`. Unrecognized extensions fall back
/// to the binary classifier: binary content yields a placeholder
/// naming the file, anything else is decoded as plain text.
///
/// The PDF route is the one delegation this crate does not perform
/// itself: when `pdf_route(path)` holds, the caller runs the outside
/// PDF text recovery and passes its outcome as `pdf_extracted`
/// (`None` otherwise, and on a failed recovery); only that route can
/// fail, with an I/O error.
pub fn parse_file(path: &str, bytes: &Vec<u8>, pdf_extracted: Option<String>) -> (r: Result<
    String,
    PipelineError,
>)
    ensures
        format_of(ext_key(path@)) is PlainText ==> r is Ok && r->Ok_0@ == decode::decoded_of(
            bytes@,
        ),
        format_of(ext_key(path@)) is Csv ==> r is Ok && r->Ok_0@ == parsers::csv_spec(
            decode::decoded_of(bytes@),
        ),
        format_of(ext_key(path@)) is Json ==> r is Ok && r->Ok_0@ == json_tree::json_spec(
            decode::decoded_of(bytes@),
        ),
        format_of(ext_key(path@)) is Markdown ==> r is Ok && r->Ok_0@ == parsers::markdown_spec(
            decode::decoded_of(bytes@),
        ),
        format_of(ext_key(path@)) is Xml ==> r is Ok && r->Ok_0@ == parsers::xml_spec(
            decode::decoded_of(bytes@),
        ),
        format_of(ext_key(path@)) is Yaml ==> r is Ok && r->Ok_0@ == parsers::yaml_spec(
            decode::decoded_of(bytes@),
        ),
        format_of(ext_key(path@)) is Toml || format_of(ext_key(path@)) is Ini ==> r is Ok
            && r->Ok_0@ == parsers::kv_spec(decode::decoded_of(bytes@)),
        format_of(ext_key(path@)) is Sql ==> r is Ok && r->Ok_0@ == parsers::sql_spec(
            decode::decoded_of(bytes@),
        ),
        format_of(ext_key(path@)) is Pdf && pdf_extracted is Some ==> r is Ok && r->Ok_0@
            == parsers::tidy_lines_spec(pdf_extracted->0@),
        format_of(ext_key(path@)) is Pdf && pdf_extracted is None ==> r is Err && r->Err_0
            == PipelineError::Io,
        format_of(ext_key(path@)) is Other && classify::is_binary_spec(
            classify::sample_of(bytes@),
        ) ==> r is Ok && r->Ok_0@ == binary_placeholder(path@),
        format_of(ext_key(path@)) is Other && !classify::is_binary_spec(
            classify::sample_of(bytes@),
        ) ==> r is Ok && r->Ok_0@ == decode::decoded_of(bytes@),
        !(format_of(ext_key(path@)) is Pdf) ==> r is Ok,
{
    let parts = path_parts(path);
    let name = parts.0;
    let ext = parts.1;
    if text::chars_eq_str(&ext, "txt") || text::chars_eq_str(&ext, "log") || text::chars_eq_str(
        &ext,
        "text",
    ) {
        Ok(decode::parse_text_file(bytes))
    } else if text::chars_eq_str(&ext, "csv") {
        Ok(parsers::parse_csv_file(bytes))
    } else if text::chars_eq_str(&ext, "json") {
        Ok(json_tree::parse_json_file(bytes))
    } else if text::chars_eq_str(&ext, "md") || text::chars_eq_str(&ext, "markdown") {
        Ok(parsers::parse_markdown_file(bytes))
    } else if text::chars_eq_str(&ext, "xml") || text::chars_eq_str(&ext, "html")
        || text::chars_eq_str(&ext, "htm") {
        Ok(parsers::parse_xml_file(bytes))
    } else if text::chars_eq_str(&ext, "yaml") || text::chars_eq_str(&ext, "yml") {
        Ok(parsers::parse_yaml_file(bytes))
    } else if text::chars_eq_str(&ext, "toml") {
        Ok(parsers::parse_toml_file(bytes))
    } else if text::chars_eq_str(&ext, "ini") || text::chars_eq_str(&ext, "cfg")
        || text::chars_eq_str(&ext, "conf") {
        Ok(parsers::parse_ini_file(bytes))
    } else if text::chars_eq_str(&ext, "sql") {
        Ok(parsers::parse_sql_file(bytes))
    } else if text::chars_eq_str(&ext, "pdf") {
        parsers::parse_pdf_file(pdf_extracted)
    } else {
        let sample = classify::take_sample(bytes);
        if classify::is_binary_file(&sample) {
            let mut out = text::string_to_chars("[Binary file: ");
            let display: Vec<char> = if name.len() > 0 {
                name
            } else {
                text::string_to_chars("binary_file")
            };
            text::push_all(&mut out, &display);
            out.push(']');
            proof {
                assert(out@ =~= binary_placeholder(path@));
            }
            Ok(text::chars_to_string(&out))
        } else {
            Ok(decode::parse_text_file(bytes))
        }
    }
}

} // verus!
