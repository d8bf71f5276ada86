//! Character-level text utilities shared by the format extractors:
//! whitespace trimming, searching, line splitting and joining, all
//! specified over `Seq<char>` and implemented over `Vec<char>`.

use vstd::prelude::*;

verus! {

/// The Unicode `White_Space` characters, as trimmed by the extractors.
pub open spec fn is_space_spec(c: char) -> bool {
    c == ' ' || c == '\t' || c == '\n' || c == '\r' || c == '\u{b}' || c == '\u{c}'
        || c == '\u{85}' || c == '\u{a0}' || c == '\u{1680}'
        || ('\u{2000}' <= c && c <= '\u{200a}')
        || c == '\u{2028}' || c == '\u{2029}' || c == '\u{202f}' || c == '\u{205f}'
        || c == '\u{3000}'
}

#[verifier::when_used_as_spec(is_space_spec)]
pub fn is_space(c: char) -> (r: bool)
    ensures
        r == is_space_spec(c),
{
    c == ' ' || c == '\t' || c == '\n' || c == '\r' || c == '\u{b}' || c == '\u{c}'
        || c == '\u{85}' || c == '\u{a0}' || c == '\u{1680}'
        || ('\u{2000}' <= c && c <= '\u{200a}')
        || c == '\u{2028}' || c == '\u{2029}' || c == '\u{202f}' || c == '\u{205f}'
        || c == '\u{3000}'
}

/// Index of the first occurrence of `a` or `b` at or after `from`,
/// or `s.len()` if neither occurs.
pub open spec fn find_from(s: Seq<char>, from: int, a: char, b: char) -> int
    decreases s.len() - from,
        when 0 <= from <= s.len()
{
    if from >= s.len() {
        s.len() as int
    } else if s[from] == a || s[from] == b {
        from
    } else {
        find_from(s, from + 1, a, b)
    }
}

pub proof fn lemma_find_from(s: Seq<char>, from: int, a: char, b: char)
    requires
        0 <= from <= s.len(),
    ensures
        from <= find_from(s, from, a, b) <= s.len(),
        forall|i: int| from <= i < find_from(s, from, a, b) ==> s[i] != a && s[i] != b,
        find_from(s, from, a, b) < s.len() ==> (s[find_from(s, from, a, b)] == a
            || s[find_from(s, from, a, b)] == b),
    decreases s.len() - from,
{
    if from < s.len() && s[from] != a && s[from] != b {
        lemma_find_from(s, from + 1, a, b);
    }
}

pub fn find2(v: &Vec<char>, from: usize, a: char, b: char) -> (r: usize)
    requires
        from <= v.len(),
    ensures
        r == find_from(v@, from as int, a, b),
        from <= r <= v.len(),
    decreases v.len() - from,
{
    if from >= v.len() {
        v.len()
    } else if v[from] == a || v[from] == b {
        from
    } else {
        find2(v, from + 1, a, b)
    }
}

/// Index of the first position at or after `from` where the two-character
/// pattern `ab` starts, or `s.len()` if it never does.
pub open spec fn find_pat(s: Seq<char>, from: int, a: char, b: char) -> int
    decreases s.len() - from,
        when 0 <= from <= s.len()
{
    if from + 1 >= s.len() {
        s.len() as int
    } else if s[from] == a && s[from + 1] == b {
        from
    } else {
        find_pat(s, from + 1, a, b)
    }
}

pub proof fn lemma_find_pat(s: Seq<char>, from: int, a: char, b: char)
    requires
        0 <= from <= s.len(),
    ensures
        from <= find_pat(s, from, a, b) <= s.len(),
        find_pat(s, from, a, b) < s.len() ==> find_pat(s, from, a, b) + 1 < s.len()
            && s[find_pat(s, from, a, b)] == a && s[find_pat(s, from, a, b) + 1] == b,
    decreases s.len() - from,
{
    if from + 1 < s.len() && !(s[from] == a && s[from + 1] == b) {
        lemma_find_pat(s, from + 1, a, b);
    }
}

pub fn find_pat2(v: &Vec<char>, from: usize, a: char, b: char) -> (r: usize)
    requires
        from <= v.len(),
    ensures
        r == find_pat(v@, from as int, a, b),
        from <= r <= v.len(),
    decreases v.len() - from,
{
    if from >= v.len() {
        v.len()
    } else if from + 1 >= v.len() {
        v.len()
    } else if v[from] == a && v[from + 1] == b {
        from
    } else {
        find_pat2(v, from + 1, a, b)
    }
}

/// Index of the first character at or after `from` that is not `c`.
pub open spec fn skip_char(s: Seq<char>, from: int, c: char) -> int
    decreases s.len() - from,
        when 0 <= from <= s.len()
{
    if from >= s.len() {
        s.len() as int
    } else if s[from] == c {
        skip_char(s, from + 1, c)
    } else {
        from
    }
}

pub fn skip_char2(v: &Vec<char>, from: usize, c: char) -> (r: usize)
    requires
        from <= v.len(),
    ensures
        r == skip_char(v@, from as int, c),
        from <= r <= v.len(),
    decreases v.len() - from,
{
    if from >= v.len() {
        v.len()
    } else if v[from] == c {
        skip_char2(v, from + 1, c)
    } else {
        from
    }
}

/// Index of the first non-whitespace character at or after `from`.
pub open spec fn skip_spaces(s: Seq<char>, from: int) -> int
    decreases s.len() - from,
        when 0 <= from <= s.len()
{
    if from >= s.len() {
        s.len() as int
    } else if is_space_spec(s[from]) {
        skip_spaces(s, from + 1)
    } else {
        from
    }
}

pub fn skip_spaces2(v: &Vec<char>, from: usize) -> (r: usize)
    requires
        from <= v.len(),
    ensures
        r == skip_spaces(v@, from as int),
        from <= r <= v.len(),
    decreases v.len() - from,
{
    if from >= v.len() {
        v.len()
    } else if is_space(v[from]) {
        skip_spaces2(v, from + 1)
    } else {
        from
    }
}

/// One past the last non-whitespace character strictly before `upto`,
/// or `0` if there is none.
pub open spec fn rskip_spaces(s: Seq<char>, upto: int) -> int
    decreases upto,
        when 0 <= upto <= s.len()
{
    if upto <= 0 {
        0
    } else if is_space_spec(s[upto - 1]) {
        rskip_spaces(s, upto - 1)
    } else {
        upto
    }
}

pub fn rskip_spaces2(v: &Vec<char>, upto: usize) -> (r: usize)
    requires
        upto <= v.len(),
    ensures
        r == rskip_spaces(v@, upto as int),
        r <= upto,
    decreases upto,
{
    if upto == 0 {
        0
    } else if is_space(v[upto - 1]) {
        rskip_spaces2(v, upto - 1)
    } else {
        upto
    }
}

/// The input with leading and trailing whitespace removed.
pub open spec fn trim_of(s: Seq<char>) -> Seq<char> {
    if skip_spaces(s, 0) >= rskip_spaces(s, s.len() as int) {
        Seq::empty()
    } else {
        s.subrange(skip_spaces(s, 0), rskip_spaces(s, s.len() as int))
    }
}

/// Copies `v[i..j]`.
pub fn slice_of(v: &Vec<char>, i: usize, j: usize) -> (r: Vec<char>)
    requires
        i <= j <= v.len(),
    ensures
        r@ == v@.subrange(i as int, j as int),
{
    let mut r: Vec<char> = Vec::new();
    let mut k: usize = i;
    while k < j
        invariant
            i <= k <= j <= v.len(),
            r@ == v@.subrange(i as int, k as int),
        decreases j - k,
    {
        r.push(v[k]);
        proof {
            assert(v@.subrange(i as int, k + 1 as int) =~= v@.subrange(i as int, k as int).push(
                v@[k as int],
            ));
        }
        k += 1;
    }
    r
}

pub fn trim(v: &Vec<char>) -> (r: Vec<char>)
    ensures
        r@ == trim_of(v@),
{
    let i = skip_spaces2(v, 0);
    let j = rskip_spaces2(v, v.len());
    if i >= j {
        Vec::new()
    } else {
        slice_of(v, i, j)
    }
}

/// Appends a copy of `b` to `a`.
pub fn push_all(a: &mut Vec<char>, b: &Vec<char>)
    ensures
        final(a)@ == old(a)@ + b@,
{
    let mut k: usize = 0;
    while k < b.len()
        invariant
            k <= b.len(),
            a@ == old(a)@ + b@.subrange(0, k as int),
        decreases b.len() - k,
    {
        a.push(b[k]);
        proof {
            assert(old(a)@ + b@.subrange(0, k + 1 as int) =~= (old(a)@ + b@.subrange(
                0,
                k as int,
            )).push(b@[k as int]));
        }
        k += 1;
    }
    proof {
        assert(b@.subrange(0, b@.len() as int) =~= b@);
    }
}

/// A line terminator's `'\r'` is dropped when it precedes the `'\n'`.
pub open spec fn strip_cr(l: Seq<char>) -> Seq<char> {
    if l.len() > 0 && l[l.len() - 1] == '\r' {
        l.drop_last()
    } else {
        l
    }
}

/// The lines of `s`, split on `'\n'` terminators, dropping a `'\r'`
/// that directly precedes a `'\n'`; a trailing terminator opens no
/// further line.
pub open spec fn lines_of(s: Seq<char>) -> Seq<Seq<char>>
    decreases s.len(),
{
    if s.len() == 0 {
        Seq::empty()
    } else {
        let n = find_from(s, 0, '\n', '\n');
        if 0 <= n && n < s.len() {
            seq![strip_cr(s.subrange(0, n))] + lines_of(s.subrange(n + 1, s.len() as int))
        } else {
            seq![s]
        }
    }
}

/// The views of a sequence of character vectors.
pub open spec fn views_of(items: Seq<Vec<char>>) -> Seq<Seq<char>> {
    items.map_values(|v: Vec<char>| v@)
}

pub fn split_lines(v: &Vec<char>) -> (r: Vec<Vec<char>>)
    ensures
        views_of(r@) == lines_of(v@),
    decreases v.len(),
{
    let mut r: Vec<Vec<char>> = Vec::new();
    if v.len() == 0 {
        proof {
            assert(views_of(r@) =~= lines_of(v@));
        }
        return r;
    }
    let n = find2(v, 0, '\n', '\n');
    if n < v.len() {
        let mut first = slice_of(v, 0, n);
        if first.len() > 0 && first[first.len() - 1] == '\r' {
            first.pop();
        }
        let rest = slice_of(v, n + 1, v.len());
        let mut tail = split_lines(&rest);
        r.push(first);
        r.append(&mut tail);
        proof {
            assert(views_of(r@) =~= lines_of(v@));
        }
        r
    } else {
        let whole = slice_of(v, 0, v.len());
        proof {
            assert(whole@ =~= v@);
        }
        r.push(whole);
        proof {
            assert(views_of(r@) =~= lines_of(v@));
        }
        r
    }
}

/// The elements of `items` from position `i` on, joined with `sep`.
pub open spec fn join_from(items: Seq<Seq<char>>, i: int, sep: Seq<char>) -> Seq<char>
    decreases items.len() - i,
        when 0 <= i <= items.len()
{
    if i >= items.len() {
        Seq::empty()
    } else if i == items.len() - 1 {
        items[i]
    } else {
        items[i] + sep + join_from(items, i + 1, sep)
    }
}

/// All elements of `items` joined with `sep`; no trailing separator.
pub open spec fn join_with(items: Seq<Seq<char>>, sep: Seq<char>) -> Seq<char> {
    join_from(items, 0, sep)
}

fn join_rec(items: &Vec<Vec<char>>, i: usize, sep: &Vec<char>) -> (r: Vec<char>)
    requires
        i <= items.len(),
    ensures
        r@ == join_from(views_of(items@), i as int, sep@),
    decreases items.len() - i,
{
    let mut r: Vec<char> = Vec::new();
    if i >= items.len() {
        return r;
    }
    push_all(&mut r, &items[i]);
    if i == items.len() - 1 {
        proof {
            assert(r@ =~= join_from(views_of(items@), i as int, sep@));
        }
        return r;
    }
    push_all(&mut r, sep);
    let tail = join_rec(items, i + 1, sep);
    push_all(&mut r, &tail);
    proof {
        assert(r@ =~= join_from(views_of(items@), i as int, sep@));
    }
    r
}

/// Joins character vectors with the separator, with no trailing separator.
pub fn join_all(items: &Vec<Vec<char>>, sep: &Vec<char>) -> (r: Vec<char>)
    ensures
        r@ == join_with(views_of(items@), sep@),
{
    join_rec(items, 0, sep)
}

/// Copies the characters of a string into a vector.
pub fn string_to_chars(s: &str) -> (r: Vec<char>)
    ensures
        r@ == s@,
{
    let n = s.unicode_len();
    let mut r: Vec<char> = Vec::new();
    let mut i: usize = 0;
    while i < n
        invariant
            i <= n,
            n == s@.len(),
            r@ == s@.subrange(0, i as int),
        decreases n - i,
    {
        r.push(s.get_char(i));
        proof {
            assert(s@.subrange(0, i + 1 as int) =~= s@.subrange(0, i as int).push(s@[i as int]));
        }
        i += 1;
    }
    proof {
        assert(s@.subrange(0, n as int) =~= s@);
    }
    r
}

/// Whether the characters of `v` spell exactly the string `s`.
pub fn chars_eq_str(v: &Vec<char>, s: &str) -> (r: bool)
    ensures
        r == (v@ == s@),
{
    let n = s.unicode_len();
    if v.len() != n {
        return false;
    }
    let mut i: usize = 0;
    while i < n
        invariant
            i <= n,
            n == s@.len(),
            v@.len() == n,
            forall|j: int| 0 <= j < i ==> v@[j] == s@[j],
        decreases n - i,
    {
        if v[i] != s.get_char(i) {
            return false;
        }
        i += 1;
    }
    proof {
        assert(v@ =~= s@);
    }
    true
}

/// ASCII lower-casing of one character.
pub open spec fn lower_char(c: char) -> char {
    if 'A' <= c && c <= 'Z' {
        ((c as u8) + 32) as char
    } else {
        c
    }
}

/// ASCII lower-casing, character by character.
pub open spec fn lower_of(s: Seq<char>) -> Seq<char> {
    s.map_values(|c: char| lower_char(c))
}

pub fn to_lower(v: &Vec<char>) -> (r: Vec<char>)
    ensures
        r@ == lower_of(v@),
{
    let mut r: Vec<char> = Vec::new();
    let mut i: usize = 0;
    while i < v.len()
        invariant
            i <= v.len(),
            r@.len() == i,
            forall|j: int| 0 <= j < i ==> r@[j] == lower_char(v@[j]),
        decreases v.len() - i,
    {
        let c = v[i];
        if 'A' <= c && c <= 'Z' {
            r.push(((c as u8) + 32) as char);
        } else {
            r.push(c);
        }
        i += 1;
    }
    proof {
        assert(r@ =~= lower_of(v@));
    }
    r
}

/// Relies on `Iterator::collect` for `String`: collecting characters
/// yields the string of exactly those characters, in order.
#[verifier::external_body]
pub fn chars_to_string(v: &Vec<char>) -> (r: String)
    ensures
        r@ == v@,
{
    v.iter().collect()
}

} // verus!
