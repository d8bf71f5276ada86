//! Format-specific extractors. Each takes raw file content and produces
//! a plain-text projection; malformed input degrades to partial or raw
//! output rather than failing.

use vstd::prelude::*;

use crate::decode::decoded_of;
use crate::decode::parse_text_file;
use crate::text::find_from;
use crate::text::find_pat;
use crate::text::find2;
use crate::text::find_pat2;
use crate::text::lemma_find_from;
use crate::text::lemma_find_pat;
use crate::text::lines_of;
use crate::text::join_with;
use crate::text::join_all;
use crate::text::views_of;
use crate::text::trim_of;
use crate::text::trim;
use crate::text::slice_of;
use crate::text::split_lines;
use crate::text::string_to_chars;
use crate::text::chars_to_string;
use crate::text::push_all;

verus! {

// ------------------------------------------------------------------
// SQL: strip `/* ... */` comments (tracking multi-line state), strip
// `-- ...` to end of line, trim, drop empty lines.
// ------------------------------------------------------------------
/// Removes complete `/* ... */` spans from one line; returns the
/// remaining content and whether an unterminated `/*` opened a
/// multi-line comment (in which case the content stops before it).
pub open spec fn sql_strip_blocks(l: Seq<char>) -> (Seq<char>, bool)
    decreases l.len(),
        via sql_strip_blocks_dec
{
    let s = find_pat(l, 0, '/', '*');
    if s >= l.len() {
        (l, false)
    } else {
        let q = find_pat(l, s + 2, '*', '/');
        if q >= l.len() {
            (l.subrange(0, s), true)
        } else {
            sql_strip_blocks(l.subrange(0, s) + l.subrange(q + 2, l.len() as int))
        }
    }
}

#[via_fn]
proof fn sql_strip_blocks_dec(l: Seq<char>) {
    lemma_find_pat(l, 0, '/', '*');
    let s = find_pat(l, 0, '/', '*');
    if s < l.len() {
        lemma_find_pat(l, s + 2, '*', '/');
    }
}

fn sql_strip_blocks_exec(l: &Vec<char>) -> (r: (Vec<char>, bool))
    ensures
        r.0@ == sql_strip_blocks(l@).0,
        r.1 == sql_strip_blocks(l@).1,
    decreases l.len(),
{
    let s = find_pat2(l, 0, '/', '*');
    proof {
        lemma_find_pat(l@, 0, '/', '*');
    }
    if s >= l.len() {
        let whole = slice_of(l, 0, l.len());
        proof {
            assert(whole@ =~= l@);
        }
        (whole, false)
    } else {
        let q = find_pat2(l, s + 2, '*', '/');
        proof {
            lemma_find_pat(l@, s + 2 as int, '*', '/');
        }
        if q >= l.len() {
            (slice_of(l, 0, s), true)
        } else {
            let mut head = slice_of(l, 0, s);
            let tail = slice_of(l, q + 2, l.len());
            push_all(&mut head, &tail);
            let rec = sql_strip_blocks_exec(&head);
            rec
        }
    }
}

/// Processing of one line after any open multi-line comment is closed:
/// block comments removed, `--` truncation, trimming; `None` when the
/// line ends up empty.
pub open spec fn sql_line_rest(l: Seq<char>) -> (Option<Seq<char>>, bool) {
    let stripped = sql_strip_blocks(l);
    let d = find_pat(stripped.0, 0, '-', '-');
    let cut = if d < stripped.0.len() {
        stripped.0.subrange(0, d)
    } else {
        stripped.0
    };
    let t = trim_of(cut);
    (
        if t.len() > 0 {
            Some(t)
        } else {
            None
        },
        stripped.1,
    )
}

/// Processing of one line, given whether a multi-line comment is open
/// when the line starts.
pub open spec fn sql_line_out(l: Seq<char>, in_comment: bool) -> (Option<Seq<char>>, bool) {
    if in_comment {
        let p = find_pat(l, 0, '*', '/');
        if p >= l.len() {
            (None, true)
        } else {
            sql_line_rest(l.subrange(p + 2, l.len() as int))
        }
    } else {
        sql_line_rest(l)
    }
}

fn sql_line_out_exec(l: &Vec<char>, in_comment: bool) -> (r: (Option<Vec<char>>, bool))
    ensures
        r.0 is Some <==> sql_line_out(l@, in_comment).0 is Some,
        r.0 is Some ==> r.0->0@ == sql_line_out(l@, in_comment).0->0,
        r.1 == sql_line_out(l@, in_comment).1,
{
    let work: Vec<char>;
    if in_comment {
        let p = find_pat2(l, 0, '*', '/');
        proof {
            lemma_find_pat(l@, 0, '*', '/');
        }
        if p >= l.len() {
            return (None, true);
        }
        work = slice_of(l, p + 2, l.len());
    } else {
        let whole = slice_of(l, 0, l.len());
        proof {
            assert(whole@ =~= l@);
        }
        work = whole;
    }
    let stripped = sql_strip_blocks_exec(&work);
    let d = find_pat2(&stripped.0, 0, '-', '-');
    let cut = if d < stripped.0.len() {
        slice_of(&stripped.0, 0, d)
    } else {
        let keep = slice_of(&stripped.0, 0, stripped.0.len());
        proof {
            assert(keep@ =~= stripped.0@);
        }
        keep
    };
    let t = trim(&cut);
    if t.len() > 0 {
        (Some(t), stripped.1)
    } else {
        (None, stripped.1)
    }
}

/// The surviving lines, folding the multi-line comment state forward.
pub open spec fn sql_lines_out(ls: Seq<Seq<char>>, i: int, in_comment: bool) -> Seq<Seq<char>>
    decreases ls.len() - i,
        when 0 <= i <= ls.len()
{
    if i >= ls.len() {
        Seq::empty()
    } else {
        let step = sql_line_out(ls[i], in_comment);
        (match step.0 {
            Some(t) => seq![t],
            None => Seq::empty(),
        }) + sql_lines_out(ls, i + 1, step.1)
    }
}

fn sql_emit(lines: &Vec<Vec<char>>, i: usize, in_comment: bool) -> (r: Vec<Vec<char>>)
    requires
        i <= lines.len(),
    ensures
        views_of(r@) == sql_lines_out(views_of(lines@), i as int, in_comment),
    decreases lines.len() - i,
{
    let mut r: Vec<Vec<char>> = Vec::new();
    if i >= lines.len() {
        proof {
            assert(views_of(r@) =~= sql_lines_out(views_of(lines@), i as int, in_comment));
        }
        return r;
    }
    let step = sql_line_out_exec(&lines[i], in_comment);
    let mut tail = sql_emit(lines, i + 1, step.1);
    match step.0 {
        Some(t) => {
            r.push(t);
        },
        None => {},
    }
    r.append(&mut tail);
    proof {
        assert(views_of(r@) =~= sql_lines_out(views_of(lines@), i as int, in_comment));
    }
    r
}

/// The SQL projection: comments removed, lines trimmed, empty lines
/// dropped, survivors joined with newlines.
pub open spec fn sql_spec(s: Seq<char>) -> Seq<char> {
    join_with(sql_lines_out(lines_of(s), 0, false), seq!['\n'])
}

/// Extracts the statements of an SQL file: `/* ... */` comments are
/// removed (including spans crossing lines), `--` comments are cut to
/// end of line, and the trimmed non-empty lines are joined with
/// newlines.
pub fn parse_sql_file(bytes: &Vec<u8>) -> (r: String)
    ensures
        r@ == sql_spec(decoded_of(bytes@)),
{
    let content = parse_text_file(bytes);
    let chars = string_to_chars(content.as_str());
    let lines = split_lines(&chars);
    let kept = sql_emit(&lines, 0, false);
    let mut sep: Vec<char> = Vec::new();
    sep.push('\n');
    let joined = join_all(&kept, &sep);
    let r = chars_to_string(&joined);
    proof {
        assert(sep@ =~= seq!['\n']);
    }
    r
}

// ------------------------------------------------------------------
// Markdown: strip heading markers, emphasis and code markers, replace
// link syntax by its label, drop lines left empty.
// ------------------------------------------------------------------
/// The input with every `*` and every backtick removed, from `i` on.
pub open spec fn strip_marks_from(l: Seq<char>, i: int) -> Seq<char>
    decreases l.len() - i,
        when 0 <= i <= l.len()
{
    if i >= l.len() {
        Seq::empty()
    } else {
        (if l[i] == '*' || l[i] == '`' {
            Seq::empty()
        } else {
            seq![l[i]]
        }) + strip_marks_from(l, i + 1)
    }
}

fn strip_marks(l: &Vec<char>, i: usize) -> (r: Vec<char>)
    requires
        i <= l.len(),
    ensures
        r@ == strip_marks_from(l@, i as int),
    decreases l.len() - i,
{
    if i >= l.len() {
        Vec::new()
    } else {
        let mut rest = strip_marks(l, i + 1);
        let c = l[i];
        if c == '*' || c == '`' {
            rest
        } else {
            rest.insert(0, c);
            proof {
                assert(rest@ =~= seq![l@[i as int]] + strip_marks_from(l@, i + 1 as int));
            }
            rest
        }
    }
}

/// Markdown link syntax `[label](url)` replaced by `label`, scanning
/// left to right, leftmost occurrence first, non-overlapping: the label
/// is non-empty and bracket-free, the url non-empty and free of `)`.
pub open spec fn strip_links(s: Seq<char>) -> Seq<char>
    decreases s.len(),
        via strip_links_dec
{
    if s.len() == 0 {
        Seq::empty()
    } else {
        let k = find_from(s, 1, '[', ']');
        let m = find_from(s, k + 2, ')', ')');
        if s[0] == '[' && k < s.len() && s[k] == ']' && k > 1 && k + 1 < s.len() && s[k + 1] == '('
            && m < s.len() && m > k + 2 {
            s.subrange(1, k) + strip_links(s.subrange(m + 1, s.len() as int))
        } else {
            seq![s[0]] + strip_links(s.subrange(1, s.len() as int))
        }
    }
}

#[via_fn]
proof fn strip_links_dec(s: Seq<char>) {
    if s.len() > 0 {
        lemma_find_from(s, 1, '[', ']');
        let k = find_from(s, 1, '[', ']');
        if 0 <= k + 2 <= s.len() {
            lemma_find_from(s, k + 2, ')', ')');
        }
    }
}

fn strip_links_chars(v: &Vec<char>) -> (r: Vec<char>)
    ensures
        r@ == strip_links(v@),
    decreases v.len(),
{
    if v.len() == 0 {
        return Vec::new();
    }
    if v[0] == '[' {
        let k = find2(v, 1, '[', ']');
        proof {
            lemma_find_from(v@, 1, '[', ']');
        }
        if k < v.len() && v[k] == ']' && k > 1 && k + 1 < v.len() && v[k + 1] == '(' {
            let m = find2(v, k + 2, ')', ')');
            proof {
                lemma_find_from(v@, k + 2 as int, ')', ')');
            }
            if m < v.len() && m > k + 2 {
                let mut out = slice_of(v, 1, k);
                let rest = slice_of(v, m + 1, v.len());
                let tail = strip_links_chars(&rest);
                push_all(&mut out, &tail);
                return out;
            }
        }
    }
    let rest = slice_of(v, 1, v.len());
    let tail = strip_links_chars(&rest);
    let mut out: Vec<char> = Vec::new();
    out.push(v[0]);
    push_all(&mut out, &tail);
    proof {
        assert(out@ =~= seq![v@[0]] + strip_links(v@.subrange(1, v@.len() as int)));
    }
    out
}

/// Replaces markdown link syntax `[label](url)` by `label` throughout.
pub fn regex_replace_links(text: &str) -> (r: String)
    ensures
        r@ == strip_links(text@),
{
    let v = string_to_chars(text);
    let out = strip_links_chars(&v);
    chars_to_string(&out)
}

/// The cleaned form of one markdown line: leading `#` stripped, `*`
/// and backticks removed, links replaced by their labels, and the
/// result trimmed of surrounding whitespace.
pub open spec fn md_clean(l: Seq<char>) -> Seq<char> {
    trim_of(strip_links(strip_marks_from(l, crate::text::skip_char(l, 0, '#'))))
}

fn md_clean_exec(l: &Vec<char>) -> (r: Vec<char>)
    ensures
        r@ == md_clean(l@),
{
    let h = crate::text::skip_char2(l, 0, '#');
    let unmarked = strip_marks(l, h);
    let unlinked = strip_links_chars(&unmarked);
    trim(&unlinked)
}

/// The cleaned lines that are non-empty.
pub open spec fn md_lines(ls: Seq<Seq<char>>, i: int) -> Seq<Seq<char>>
    decreases ls.len() - i,
        when 0 <= i <= ls.len()
{
    if i >= ls.len() {
        Seq::empty()
    } else {
        let c = md_clean(ls[i]);
        (if c.len() > 0 {
            seq![c]
        } else {
            Seq::empty()
        }) + md_lines(ls, i + 1)
    }
}

fn md_emit(lines: &Vec<Vec<char>>, i: usize) -> (r: Vec<Vec<char>>)
    requires
        i <= lines.len(),
    ensures
        views_of(r@) == md_lines(views_of(lines@), i as int),
    decreases lines.len() - i,
{
    let mut r: Vec<Vec<char>> = Vec::new();
    if i >= lines.len() {
        proof {
            assert(views_of(r@) =~= md_lines(views_of(lines@), i as int));
        }
        return r;
    }
    let c = md_clean_exec(&lines[i]);
    let mut tail = md_emit(lines, i + 1);
    if c.len() > 0 {
        r.push(c);
    }
    r.append(&mut tail);
    proof {
        assert(views_of(r@) =~= md_lines(views_of(lines@), i as int));
    }
    r
}

/// The markdown projection: each line cleaned, empty results dropped,
/// survivors joined with newlines.
pub open spec fn markdown_spec(s: Seq<char>) -> Seq<char> {
    join_with(md_lines(lines_of(s), 0), seq!['\n'])
}

/// Extracts the text of a markdown file: heading markers, emphasis and
/// code markers are stripped, links are replaced by their labels, each
/// line is trimmed, and the lines left non-empty are joined with
/// newlines.
pub fn parse_markdown_file(bytes: &Vec<u8>) -> (r: String)
    ensures
        r@ == markdown_spec(decoded_of(bytes@)),
{
    let content = parse_text_file(bytes);
    let chars = string_to_chars(content.as_str());
    let lines = split_lines(&chars);
    let kept = md_emit(&lines, 0);
    let mut sep: Vec<char> = Vec::new();
    sep.push('\n');
    let joined = join_all(&kept, &sep);
    let r = chars_to_string(&joined);
    proof {
        assert(sep@ =~= seq!['\n']);
    }
    r
}

// ------------------------------------------------------------------
// YAML and key-value (TOML / INI / CFG / CONF) extractors: line
// oriented, comments cut, values taken after the separator, one layer
// of matching quotes stripped.
// ------------------------------------------------------------------
/// One layer of matching single or double quotes removed.
pub open spec fn unquote(v: Seq<char>) -> Seq<char> {
    if v.len() >= 2 && v[0] == v[v.len() - 1] && (v[0] == '"' || v[0] == '\'') {
        v.subrange(1, v.len() - 1)
    } else {
        v
    }
}

fn unquote_exec(v: &Vec<char>) -> (r: Vec<char>)
    ensures
        r@ == unquote(v@),
{
    if v.len() >= 2 && v[0] == v[v.len() - 1] && (v[0] == '"' || v[0] == '\'') {
        slice_of(v, 1, v.len() - 1)
    } else {
        let whole = slice_of(v, 0, v.len());
        proof {
            assert(whole@ =~= v@);
        }
        whole
    }
}

/// Index of the first `#` at or after `i` that stands outside single
/// or double quotes, carrying the quote state `q`; `l.len()` if there
/// is none.
pub open spec fn unquoted_hash_from(l: Seq<char>, i: int, q: Option<char>) -> int
    decreases l.len() - i,
        when 0 <= i <= l.len()
{
    if i >= l.len() {
        l.len() as int
    } else if q is Some {
        if l[i] == q->0 {
            unquoted_hash_from(l, i + 1, None)
        } else {
            unquoted_hash_from(l, i + 1, q)
        }
    } else if l[i] == '#' {
        i
    } else if l[i] == '"' || l[i] == '\'' {
        unquoted_hash_from(l, i + 1, Some(l[i]))
    } else {
        unquoted_hash_from(l, i + 1, None)
    }
}

fn unquoted_hash2(l: &Vec<char>, i: usize, q: Option<char>) -> (r: usize)
    requires
        i <= l.len(),
    ensures
        r == unquoted_hash_from(l@, i as int, q),
        i <= r <= l.len(),
    decreases l.len() - i,
{
    if i >= l.len() {
        l.len()
    } else if let Some(qc) = q {
        if l[i] == qc {
            unquoted_hash2(l, i + 1, None)
        } else {
            unquoted_hash2(l, i + 1, q)
        }
    } else if l[i] == '#' {
        i
    } else if l[i] == '"' || l[i] == '\'' {
        unquoted_hash2(l, i + 1, Some(l[i]))
    } else {
        unquoted_hash2(l, i + 1, None)
    }
}

/// The value a YAML line contributes: the part before an unquoted `#`
/// comment is trimmed and split at the first `:`; the value side is
/// trimmed and unquoted; lines without `:`, empty values, and inline
/// collections (`[` or `{`) contribute nothing.
pub open spec fn yaml_line_val(l: Seq<char>) -> Option<Seq<char>> {
    let t = trim_of(l.subrange(0, unquoted_hash_from(l, 0, None)));
    let p = find_from(t, 0, ':', ':');
    if p >= t.len() {
        None
    } else {
        let v = unquote(trim_of(t.subrange(p + 1, t.len() as int)));
        if v.len() > 0 && v[0] != '[' && v[0] != '{' {
            Some(v)
        } else {
            None
        }
    }
}

fn yaml_line_val_exec(l: &Vec<char>) -> (r: Option<Vec<char>>)
    ensures
        r is Some <==> yaml_line_val(l@) is Some,
        r is Some ==> r->0@ == yaml_line_val(l@)->0,
{
    let h = unquoted_hash2(l, 0, None);
    let cut = slice_of(l, 0, h);
    let t = trim(&cut);
    let p = find2(&t, 0, ':', ':');
    if p >= t.len() {
        return None;
    }
    let raw = slice_of(&t, p + 1, t.len());
    let v = unquote_exec(&trim(&raw));
    if v.len() > 0 && v[0] != '[' && v[0] != '{' {
        Some(v)
    } else {
        None
    }
}

/// The value a key-value line contributes: comments are cut first at
/// `#` then at `;`, the rest is trimmed and split at the first `=`; the
/// value side is trimmed and unquoted; lines without `=` and empty
/// values contribute nothing.
pub open spec fn kv_line_val(l: Seq<char>) -> Option<Seq<char>> {
    let c1 = l.subrange(0, find_from(l, 0, '#', '#'));
    let t = trim_of(c1.subrange(0, find_from(c1, 0, ';', ';')));
    let p = find_from(t, 0, '=', '=');
    if p >= t.len() {
        None
    } else {
        let v = unquote(trim_of(t.subrange(p + 1, t.len() as int)));
        if v.len() > 0 {
            Some(v)
        } else {
            None
        }
    }
}

fn kv_line_val_exec(l: &Vec<char>) -> (r: Option<Vec<char>>)
    ensures
        r is Some <==> kv_line_val(l@) is Some,
        r is Some ==> r->0@ == kv_line_val(l@)->0,
{
    let h = find2(l, 0, '#', '#');
    let c1 = slice_of(l, 0, h);
    let sc = find2(&c1, 0, ';', ';');
    let c2 = slice_of(&c1, 0, sc);
    let t = trim(&c2);
    let p = find2(&t, 0, '=', '=');
    if p >= t.len() {
        return None;
    }
    let raw = slice_of(&t, p + 1, t.len());
    let v = unquote_exec(&trim(&raw));
    if v.len() > 0 {
        Some(v)
    } else {
        None
    }
}

pub open spec fn yaml_lines(ls: Seq<Seq<char>>, i: int) -> Seq<Seq<char>>
    decreases ls.len() - i,
        when 0 <= i <= ls.len()
{
    if i >= ls.len() {
        Seq::empty()
    } else {
        (match yaml_line_val(ls[i]) {
            Some(t) => seq![t],
            None => Seq::empty(),
        }) + yaml_lines(ls, i + 1)
    }
}

pub open spec fn kv_lines(ls: Seq<Seq<char>>, i: int) -> Seq<Seq<char>>
    decreases ls.len() - i,
        when 0 <= i <= ls.len()
{
    if i >= ls.len() {
        Seq::empty()
    } else {
        (match kv_line_val(ls[i]) {
            Some(t) => seq![t],
            None => Seq::empty(),
        }) + kv_lines(ls, i + 1)
    }
}

fn yaml_emit(lines: &Vec<Vec<char>>, i: usize) -> (r: Vec<Vec<char>>)
    requires
        i <= lines.len(),
    ensures
        views_of(r@) == yaml_lines(views_of(lines@), i as int),
    decreases lines.len() - i,
{
    let mut r: Vec<Vec<char>> = Vec::new();
    if i >= lines.len() {
        proof {
            assert(views_of(r@) =~= yaml_lines(views_of(lines@), i as int));
        }
        return r;
    }
    let step = yaml_line_val_exec(&lines[i]);
    let mut tail = yaml_emit(lines, i + 1);
    match step {
        Some(t) => {
            r.push(t);
        },
        None => {},
    }
    r.append(&mut tail);
    proof {
        assert(views_of(r@) =~= yaml_lines(views_of(lines@), i as int));
    }
    r
}

fn kv_emit(lines: &Vec<Vec<char>>, i: usize) -> (r: Vec<Vec<char>>)
    requires
        i <= lines.len(),
    ensures
        views_of(r@) == kv_lines(views_of(lines@), i as int),
    decreases lines.len() - i,
{
    let mut r: Vec<Vec<char>> = Vec::new();
    if i >= lines.len() {
        proof {
            assert(views_of(r@) =~= kv_lines(views_of(lines@), i as int));
        }
        return r;
    }
    let step = kv_line_val_exec(&lines[i]);
    let mut tail = kv_emit(lines, i + 1);
    match step {
        Some(t) => {
            r.push(t);
        },
        None => {},
    }
    r.append(&mut tail);
    proof {
        assert(views_of(r@) =~= kv_lines(views_of(lines@), i as int));
    }
    r
}

/// The YAML projection: surviving values joined with newlines.
pub open spec fn yaml_spec(s: Seq<char>) -> Seq<char> {
    join_with(yaml_lines(lines_of(s), 0), seq!['\n'])
}

/// The key-value projection: surviving values joined with newlines.
pub open spec fn kv_spec(s: Seq<char>) -> Seq<char> {
    join_with(kv_lines(lines_of(s), 0), seq!['\n'])
}

/// Extracts the values of a YAML file, line by line.
pub fn parse_yaml_file(bytes: &Vec<u8>) -> (r: String)
    ensures
        r@ == yaml_spec(decoded_of(bytes@)),
{
    let content = parse_text_file(bytes);
    let chars = string_to_chars(content.as_str());
    let lines = split_lines(&chars);
    let kept = yaml_emit(&lines, 0);
    let mut sep: Vec<char> = Vec::new();
    sep.push('\n');
    let joined = join_all(&kept, &sep);
    let r = chars_to_string(&joined);
    proof {
        assert(sep@ =~= seq!['\n']);
    }
    r
}

/// Extracts the values of a key-value file (`=`-separated, `#` and `;`
/// comments), line by line.
pub fn parse_key_value_file(bytes: &Vec<u8>) -> (r: String)
    ensures
        r@ == kv_spec(decoded_of(bytes@)),
{
    let content = parse_text_file(bytes);
    let chars = string_to_chars(content.as_str());
    let lines = split_lines(&chars);
    let kept = kv_emit(&lines, 0);
    let mut sep: Vec<char> = Vec::new();
    sep.push('\n');
    let joined = join_all(&kept, &sep);
    let r = chars_to_string(&joined);
    proof {
        assert(sep@ =~= seq!['\n']);
    }
    r
}

/// Extracts the values of a TOML file.
pub fn parse_toml_file(bytes: &Vec<u8>) -> (r: String)
    ensures
        r@ == kv_spec(decoded_of(bytes@)),
{
    parse_key_value_file(bytes)
}

/// Extracts the values of an INI / CFG / CONF file.
pub fn parse_ini_file(bytes: &Vec<u8>) -> (r: String)
    ensures
        r@ == kv_spec(decoded_of(bytes@)),
{
    parse_key_value_file(bytes)
}

// ------------------------------------------------------------------
// CSV: parsed by the csv crate (headers on, flexible field counts,
// malformed records skipped); each row's fields are space-joined, one
// line per row.
// ------------------------------------------------------------------
/// The rows the csv crate yields for this text — the header row first,
/// then each well-formed record — as sequences of fields; a pure
/// function of the text.
pub uninterp spec fn csv_rows_of(s: Seq<char>) -> Seq<Seq<Seq<char>>>;

/// Relies on `csv::ReaderBuilder` / `Reader::headers` /
/// `Reader::records`: parsing is a pure function of the input text;
/// records that fail to parse are skipped, field contents are copied
/// unchanged.
#[verifier::external_body]
fn csv_rows(content: &str) -> (r: Vec<Vec<String>>)
    ensures
        r.deep_view() == csv_rows_of(content@),
{
    let mut reader = csv::ReaderBuilder::new().has_headers(true).flexible(true).from_reader(
        content.as_bytes(),
    );
    let mut rows: Vec<Vec<String>> = Vec::new();
    if let Ok(h) = reader.headers() {
        rows.push(h.iter().map(String::from).collect());
    }
    for rec in reader.records() {
        if let Ok(rc) = rec {
            rows.push(rc.iter().map(String::from).collect());
        }
    }
    rows
}

/// One row rendered as its fields joined with single spaces.
pub open spec fn row_line(row: Seq<Seq<char>>) -> Seq<char> {
    join_with(row, seq![' '])
}

/// All rows rendered, one line per row, joined with newlines.
pub open spec fn csv_render(rows: Seq<Seq<Seq<char>>>) -> Seq<char> {
    join_with(rows.map_values(|row: Seq<Seq<char>>| row_line(row)), seq!['\n'])
}

/// The CSV projection of a text.
pub open spec fn csv_spec(s: Seq<char>) -> Seq<char> {
    csv_render(csv_rows_of(s))
}

/// Renders parsed rows: fields space-joined, one line per row, lines
/// joined with newlines.
pub fn join_records(rows: &Vec<Vec<String>>) -> (r: String)
    ensures
        r@ == csv_render(rows.deep_view()),
{
    let mut lines: Vec<Vec<char>> = Vec::new();
    let mut i: usize = 0;
    while i < rows.len()
        invariant
            i <= rows.len(),
            lines@.len() == i,
            forall|j: int| 0 <= j < i ==> lines@[j]@ == row_line(rows.deep_view()[j]),
        decreases rows.len() - i,
    {
        let row = &rows[i];
        let mut fields: Vec<Vec<char>> = Vec::new();
        let mut k: usize = 0;
        while k < row.len()
            invariant
                k <= row.len(),
                fields@.len() == k,
                forall|m: int| 0 <= m < k ==> fields@[m]@ == row@[m]@,
            decreases row.len() - k,
        {
            fields.push(string_to_chars(row[k].as_str()));
            k += 1;
        }
        let mut sp: Vec<char> = Vec::new();
        sp.push(' ');
        proof {
            assert(sp@ =~= seq![' ']);
            assert(views_of(fields@) =~= rows.deep_view()[i as int]);
        }
        let line = join_all(&fields, &sp);
        lines.push(line);
        i += 1;
    }
    let mut sep: Vec<char> = Vec::new();
    sep.push('\n');
    let joined = join_all(&lines, &sep);
    let r = chars_to_string(&joined);
    proof {
        assert(sep@ =~= seq!['\n']);
        assert(views_of(lines@) =~= rows.deep_view().map_values(
            |row: Seq<Seq<char>>| row_line(row),
        ));
    }
    r
}

/// Extracts a CSV file: the header row's fields space-joined on the
/// first line, then each data row's fields space-joined, one line per
/// record; malformed records are skipped, not fatal.
pub fn parse_csv_file(bytes: &Vec<u8>) -> (r: String)
    ensures
        r@ == csv_spec(decoded_of(bytes@)),
{
    let content = parse_text_file(bytes);
    let rows = csv_rows(content.as_str());
    join_records(&rows)
}

// ------------------------------------------------------------------
// XML / HTML: stream-parsed by quick-xml; the text and CDATA nodes are
// trimmed and the non-empty ones joined with single spaces. A parser
// error truncates the event stream rather than failing.
// ------------------------------------------------------------------
/// The text and CDATA node contents quick-xml yields for this text, in
/// document order, up to the end of input or the first parse error; a
/// pure function of the text.
pub uninterp spec fn xml_texts_of(s: Seq<char>) -> Seq<Seq<char>>;

/// Relies on `quick_xml::Reader::from_str` / `Reader::read_event`:
/// the event stream is a pure function of the input text; text and
/// CDATA payloads are copied unchanged, and the stream stops at end of
/// input or at the first error.
#[verifier::external_body]
fn xml_texts(content: &str) -> (r: Vec<String>)
    ensures
        r.deep_view() == xml_texts_of(content@),
{
    let mut reader = quick_xml::Reader::from_str(content);
    let mut out: Vec<String> = Vec::new();
    loop {
        match reader.read_event() {
            Ok(quick_xml::events::Event::Text(e)) => out.push(e.to_string()),
            Ok(quick_xml::events::Event::CData(e)) => out.push(e.to_string()),
            Ok(quick_xml::events::Event::Eof) => break,
            Err(_) => break,
            _ => {},
        }
    }
    out
}

/// The trimmed node texts that are non-empty.
pub open spec fn xml_kept(parts: Seq<Seq<char>>, i: int) -> Seq<Seq<char>>
    decreases parts.len() - i,
        when 0 <= i <= parts.len()
{
    if i >= parts.len() {
        Seq::empty()
    } else {
        let t = trim_of(parts[i]);
        (if t.len() > 0 {
            seq![t]
        } else {
            Seq::empty()
        }) + xml_kept(parts, i + 1)
    }
}

/// The XML projection of a text.
pub open spec fn xml_spec(s: Seq<char>) -> Seq<char> {
    join_with(xml_kept(xml_texts_of(s), 0), seq![' '])
}

fn xml_emit(parts: &Vec<String>, i: usize) -> (r: Vec<Vec<char>>)
    requires
        i <= parts.len(),
    ensures
        views_of(r@) == xml_kept(parts.deep_view(), i as int),
    decreases parts.len() - i,
{
    let mut r: Vec<Vec<char>> = Vec::new();
    if i >= parts.len() {
        proof {
            assert(views_of(r@) =~= xml_kept(parts.deep_view(), i as int));
        }
        return r;
    }
    let chars = string_to_chars(parts[i].as_str());
    let t = trim(&chars);
    let mut tail = xml_emit(parts, i + 1);
    if t.len() > 0 {
        r.push(t);
    }
    r.append(&mut tail);
    proof {
        assert(views_of(r@) =~= xml_kept(parts.deep_view(), i as int));
    }
    r
}

/// Joins parsed node texts: each is trimmed, empty ones are dropped,
/// survivors are joined with single spaces.
pub fn join_xml_texts(parts: &Vec<String>) -> (r: String)
    ensures
        r@ == join_with(xml_kept(parts.deep_view(), 0), seq![' ']),
{
    let kept = xml_emit(parts, 0);
    let mut sep: Vec<char> = Vec::new();
    sep.push(' ');
    let joined = join_all(&kept, &sep);
    let r = chars_to_string(&joined);
    proof {
        assert(sep@ =~= seq![' ']);
    }
    r
}

/// Extracts the text content of an XML or HTML file: the trimmed text
/// and CDATA nodes, non-empty ones joined with single spaces; parse
/// errors truncate the output instead of failing.
pub fn parse_xml_file(bytes: &Vec<u8>) -> (r: String)
    ensures
        r@ == xml_spec(decoded_of(bytes@)),
{
    let content = parse_text_file(bytes);
    let parts = xml_texts(content.as_str());
    join_xml_texts(&parts)
}

// ------------------------------------------------------------------
// PDF: text recovery is delegated to an outside PDF extraction
// library, which the caller runs and whose outcome arrives here as a
// plain value. The delegation stays outside this crate: the library
// in use can panic on malformed documents, so no honest contract over
// a direct call to it could keep the crate's no-panic guarantee. The
// recovered text's lines are trimmed, empty ones dropped, survivors
// joined with newlines; a failed recovery surfaces as an I/O error.
// ------------------------------------------------------------------
/// The trimmed lines that are non-empty.
pub open spec fn tidy_kept(ls: Seq<Seq<char>>, i: int) -> Seq<Seq<char>>
    decreases ls.len() - i,
        when 0 <= i <= ls.len()
{
    if i >= ls.len() {
        Seq::empty()
    } else {
        let t = trim_of(ls[i]);
        (if t.len() > 0 {
            seq![t]
        } else {
            Seq::empty()
        }) + tidy_kept(ls, i + 1)
    }
}

/// Lines trimmed, empty lines dropped, survivors joined with newlines.
pub open spec fn tidy_lines_spec(t: Seq<char>) -> Seq<char> {
    join_with(tidy_kept(lines_of(t), 0), seq!['\n'])
}

fn tidy_emit(lines: &Vec<Vec<char>>, i: usize) -> (r: Vec<Vec<char>>)
    requires
        i <= lines.len(),
    ensures
        views_of(r@) == tidy_kept(views_of(lines@), i as int),
    decreases lines.len() - i,
{
    let mut r: Vec<Vec<char>> = Vec::new();
    if i >= lines.len() {
        proof {
            assert(views_of(r@) =~= tidy_kept(views_of(lines@), i as int));
        }
        return r;
    }
    let t = trim(&lines[i]);
    let mut tail = tidy_emit(lines, i + 1);
    if t.len() > 0 {
        r.push(t);
    }
    r.append(&mut tail);
    proof {
        assert(views_of(r@) =~= tidy_kept(views_of(lines@), i as int));
    }
    r
}

/// Tidies extracted text: each line is trimmed, empty lines are
/// dropped, and the survivors are joined with newlines.
pub fn tidy_text(text: &str) -> (r: String)
    ensures
        r@ == tidy_lines_spec(text@),
{
    let chars = string_to_chars(text);
    let lines = split_lines(&chars);
    let kept = tidy_emit(&lines, 0);
    let mut sep: Vec<char> = Vec::new();
    sep.push('\n');
    let joined = join_all(&kept, &sep);
    let r = chars_to_string(&joined);
    proof {
        assert(sep@ =~= seq!['\n']);
    }
    r
}

/// Finishes PDF extraction from the delegated outcome: recovered text
/// is tidied line by line; a failed recovery (an encrypted or corrupt
/// document) surfaces as an I/O error.
pub fn parse_pdf_file(extracted: Option<String>) -> (r: Result<String, crate::PipelineError>)
    ensures
        extracted is Some ==> r is Ok && r->Ok_0@ == tidy_lines_spec(extracted->0@),
        extracted is None ==> r is Err && r->Err_0 == crate::PipelineError::Io,
{
    match extracted {
        Some(text) => Ok(tidy_text(text.as_str())),
        None => Err(crate::PipelineError::Io),
    }
}

} // verus!
