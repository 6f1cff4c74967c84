//! Verified text primitives for parsing device-tool output: character
//! search, prefix test, blank test, line splitting and token extraction,
//! each specified against a direct recursive model over `Seq<char>`.

use vstd::prelude::*;
use vstd::string::*;

verus! {

/// The Unicode `White_Space` characters: the set `char::is_whitespace`
/// accepts, and so the set `str::trim` and `str::split_whitespace` cut at.
pub open spec fn is_space_char(c: char) -> bool {
    c == '\t' || c == '\n' || c == '\u{B}' || c == '\u{C}' || c == '\r' || c == ' '
        || c == '\u{85}' || c == '\u{A0}' || c == '\u{1680}' || c == '\u{2000}'
        || c == '\u{2001}' || c == '\u{2002}' || c == '\u{2003}' || c == '\u{2004}'
        || c == '\u{2005}' || c == '\u{2006}' || c == '\u{2007}' || c == '\u{2008}'
        || c == '\u{2009}' || c == '\u{200A}' || c == '\u{2028}' || c == '\u{2029}'
        || c == '\u{202F}' || c == '\u{205F}' || c == '\u{3000}'
}

/// A line is blank when every character is whitespace.
pub open spec fn spec_blank(s: Seq<char>) -> bool {
    forall|i: int| 0 <= i < s.len() ==> is_space_char(s[i])
}

/// `p` is a prefix of `s`.
pub open spec fn is_prefix(p: Seq<char>, s: Seq<char>) -> bool {
    p.len() <= s.len() && s.subrange(0, p.len() as int) == p
}

/// Index of the first occurrence of `c` at or after `from`, if any.
pub open spec fn spec_find_char(s: Seq<char>, from: int, c: char) -> Option<int>
    decreases s.len() - from,
{
    if from < 0 || from >= s.len() {
        None
    } else if s[from] == c {
        Some(from)
    } else {
        spec_find_char(s, from + 1, c)
    }
}

pub proof fn lemma_find_char(s: Seq<char>, from: int, c: char)
    requires
        0 <= from <= s.len(),
    ensures
        match spec_find_char(s, from, c) {
            Some(j) => from <= j < s.len() && s[j] == c && forall|k: int|
                from <= k < j ==> s[k] != c,
            None => forall|k: int| from <= k < s.len() ==> s[k] != c,
        },
    decreases s.len() - from,
{
    if from < s.len() && s[from] != c {
        lemma_find_char(s, from + 1, c);
    }
}

/// Index of the first whitespace character at or after `from`, if any.
pub open spec fn spec_find_space(s: Seq<char>, from: int) -> Option<int>
    decreases s.len() - from,
{
    if from < 0 || from >= s.len() {
        None
    } else if is_space_char(s[from]) {
        Some(from)
    } else {
        spec_find_space(s, from + 1)
    }
}

/// Index of the first non-whitespace character at or after `from`, or the
/// length of `s` if all the rest is whitespace.
pub open spec fn spec_skip_space(s: Seq<char>, from: int) -> int
    decreases s.len() - from,
{
    if from < 0 || from >= s.len() {
        s.len() as int
    } else if is_space_char(s[from]) {
        spec_skip_space(s, from + 1)
    } else {
        from
    }
}

/// The first whitespace-delimited token of `line` (empty if the line is
/// blank or empty).
pub open spec fn spec_first_token(line: Seq<char>) -> Seq<char> {
    let start = spec_skip_space(line, 0);
    let end = match spec_find_space(line, start) {
        Some(j) => j,
        None => line.len() as int,
    };
    line.subrange(start, end)
}

/// One past the index of the last non-whitespace character, or zero when
/// every character is whitespace.
pub open spec fn spec_trim_end(s: Seq<char>) -> int
    decreases s.len(),
{
    if s.len() == 0 {
        0
    } else if is_space_char(s.last()) {
        spec_trim_end(s.drop_last())
    } else {
        s.len() as int
    }
}

/// The text with its surrounding whitespace removed, as `str::trim` cuts it.
pub open spec fn spec_trim(s: Seq<char>) -> Seq<char> {
    let start = spec_skip_space(s, 0);
    let end = spec_trim_end(s);
    if start <= end {
        s.subrange(start, end)
    } else {
        Seq::empty()
    }
}

proof fn lemma_trim_end_all_space(s: Seq<char>)
    requires
        forall|j: int| 0 <= j < s.len() ==> is_space_char(s[j]),
    ensures
        spec_trim_end(s) == 0,
    decreases s.len(),
{
    if s.len() > 0 {
        lemma_trim_end_all_space(s.drop_last());
    }
}

/// A line segment that ended in a line break has one trailing carriage
/// return removed.
pub open spec fn strip_cr(line: Seq<char>) -> Seq<char> {
    if line.len() > 0 && line.last() == '\r' {
        line.drop_last()
    } else {
        line
    }
}

/// The lines of `s` from position `from` on: split at newline characters, a
/// carriage return before a newline removed, and no final empty line after
/// a trailing newline.
pub open spec fn spec_lines_from(s: Seq<char>, from: int) -> Seq<Seq<char>>
    decreases s.len() - from,
{
    if from < 0 || from >= s.len() {
        Seq::empty()
    } else {
        match spec_find_char(s, from, '\n') {
            Some(j) => if from <= j < s.len() {
                seq![strip_cr(s.subrange(from, j))] + spec_lines_from(s, j + 1)
            } else {
                Seq::empty()
            },
            None => seq![s.subrange(from, s.len() as int)],
        }
    }
}

/// The lines of `s`, as `str::lines` yields them.
pub open spec fn spec_lines(s: Seq<char>) -> Seq<Seq<char>> {
    spec_lines_from(s, 0)
}

fn is_space(c: char) -> (r: bool)
    ensures
        r == is_space_char(c),
{
    c == '\t' || c == '\n' || c == '\u{B}' || c == '\u{C}' || c == '\r' || c == ' '
        || c == '\u{85}' || c == '\u{A0}' || c == '\u{1680}' || c == '\u{2000}'
        || c == '\u{2001}' || c == '\u{2002}' || c == '\u{2003}' || c == '\u{2004}'
        || c == '\u{2005}' || c == '\u{2006}' || c == '\u{2007}' || c == '\u{2008}'
        || c == '\u{2009}' || c == '\u{200A}' || c == '\u{2028}' || c == '\u{2029}'
        || c == '\u{202F}' || c == '\u{205F}' || c == '\u{3000}'
}

/// First occurrence of `c` in `s` at or after `from`.
pub fn find_char(s: &str, from: usize, c: char) -> (r: Option<usize>)
    requires
        from <= s@.len(),
    ensures
        r is Some <==> spec_find_char(s@, from as int, c) is Some,
        r matches Some(j) ==> spec_find_char(s@, from as int, c) == Some(j as int),
    {
    let n = s.unicode_len();
    let mut i = from;
    while i < n
        invariant
            from <= i <= n,
            n == s@.len(),
            spec_find_char(s@, from as int, c) == spec_find_char(s@, i as int, c),
        decreases n - i,
    {
        if s.get_char(i) == c {
            return Some(i);
        }
        i = i + 1;
    }
    None
}

/// Whether `p` is a prefix of `s`.
pub fn str_starts_with(s: &str, p: &str) -> (r: bool)
    ensures
        r == is_prefix(p@, s@),
{
    let n = s.unicode_len();
    let m = p.unicode_len();
    if m > n {
        return false;
    }
    let mut i: usize = 0;
    while i < m
        invariant
            i <= m <= n,
            n == s@.len(),
            m == p@.len(),
            forall|j: int| 0 <= j < i ==> s@[j] == p@[j],
        decreases m - i,
    {
        if s.get_char(i) != p.get_char(i) {
            proof {
                if is_prefix(p@, s@) {
                    assert(s@.subrange(0, p@.len() as int)[i as int] == s@[i as int]);
                }
            }
            return false;
        }
        i = i + 1;
    }
    proof {
        assert(s@.subrange(0, m as int) =~= p@);
    }
    true
}

/// Whether `s` consists of whitespace only.
pub fn is_blank(s: &str) -> (r: bool)
    ensures
        r == spec_blank(s@),
{
    let n = s.unicode_len();
    let mut i: usize = 0;
    while i < n
        invariant
            i <= n,
            n == s@.len(),
            forall|j: int| 0 <= j < i ==> is_space_char(s@[j]),
        decreases n - i,
    {
        if !is_space(s.get_char(i)) {
            return false;
        }
        i = i + 1;
    }
    true
}

/// The first whitespace-delimited token of `line`.
pub fn first_token(line: &str) -> (r: String)
    ensures
        r@ == spec_first_token(line@),
{
    let n = line.unicode_len();
    let mut start: usize = 0;
    while start < n && is_space(line.get_char(start))
        invariant
            start <= n,
            n == line@.len(),
            spec_skip_space(line@, 0) == spec_skip_space(line@, start as int),
        decreases n - start,
    {
        start = start + 1;
    }
    assert(spec_skip_space(line@, 0) == start as int);
    let mut end: usize = start;
    while end < n && !is_space(line.get_char(end))
        invariant
            start <= end <= n,
            n == line@.len(),
            spec_find_space(line@, start as int) == spec_find_space(line@, end as int),
        decreases n - end,
    {
        end = end + 1;
    }
    assert(match spec_find_space(line@, start as int) {
        Some(j) => j == end as int,
        None => end == n,
    });
    line.substring_char(start, end).to_owned()
}

/// The text with its surrounding whitespace removed.
pub fn trim(s: &str) -> (r: String)
    ensures
        r@ == spec_trim(s@),
{
    let n = s.unicode_len();
    let mut start: usize = 0;
    while start < n && is_space(s.get_char(start))
        invariant
            start <= n,
            n == s@.len(),
            spec_skip_space(s@, 0) == spec_skip_space(s@, start as int),
            forall|j: int| 0 <= j < start ==> is_space_char(s@[j]),
        decreases n - start,
    {
        start = start + 1;
    }
    assert(spec_skip_space(s@, 0) == start as int);
    let mut end: usize = n;
    proof {
        assert(s@.subrange(0, n as int) =~= s@);
    }
    while end > start && is_space(s.get_char(end - 1))
        invariant
            start <= end <= n,
            n == s@.len(),
            forall|j: int| 0 <= j < start ==> is_space_char(s@[j]),
            spec_trim_end(s@) == spec_trim_end(s@.subrange(0, end as int)),
        decreases end,
    {
        proof {
            assert(s@.subrange(0, end as int).drop_last() =~= s@.subrange(0, end - 1));
            assert(s@.subrange(0, end as int).last() == s@[end - 1]);
        }
        end = end - 1;
    }
    let result = s.substring_char(start, end).to_owned();
    proof {
        if end > start {
            assert(s@.subrange(0, end as int).last() == s@[end as int - 1]);
            assert(spec_trim_end(s@) == end as int);
        } else {
            assert(s@.subrange(0, end as int) =~= s@.subrange(0, start as int));
            lemma_trim_end_all_space(s@.subrange(0, start as int));
        }
        assert(result@ =~= spec_trim(s@));
    }
    result
}

/// The lines of `s`, as `str::lines` yields them.
pub fn split_lines(s: &str) -> (r: Vec<String>)
    ensures
        r.deep_view() == spec_lines(s@),
{
    let n = s.unicode_len();
    let mut out: Vec<String> = Vec::new();
    let mut from: usize = 0;
    while from < n
        invariant
            from <= n,
            n == s@.len(),
            out.deep_view() + spec_lines_from(s@, from as int) =~= spec_lines(s@),
        decreases n - from,
    {
        let ghost prev = out.deep_view();
        match find_char(s, from, '\n') {
            Some(j) => {
                proof {
                    lemma_find_char(s@, from as int, '\n');
                }
                let mut end = j;
                if end > from && s.get_char(end - 1) == '\r' {
                    end = end - 1;
                    proof {
                        assert(strip_cr(s@.subrange(from as int, j as int)) =~= s@.subrange(
                            from as int,
                            end as int,
                        ));
                    }
                } else {
                    proof {
                        assert(strip_cr(s@.subrange(from as int, j as int)) =~= s@.subrange(
                            from as int,
                            end as int,
                        ));
                    }
                }
                let line = s.substring_char(from, end).to_owned();
                out.push(line);
                proof {
                    assert(out.deep_view() =~= prev.push(
                        strip_cr(s@.subrange(from as int, j as int)),
                    ));
                    assert(prev.push(strip_cr(s@.subrange(from as int, j as int)))
                        + spec_lines_from(s@, j + 1 as int) =~= prev + spec_lines_from(
                        s@,
                        from as int,
                    ));
                }
                from = j + 1;
            },
            None => {
                let line = s.substring_char(from, n).to_owned();
                out.push(line);
                proof {
                    assert(out.deep_view() =~= prev.push(s@.subrange(from as int, n as int)));
                    assert(prev.push(s@.subrange(from as int, n as int)) + spec_lines_from(s@, n as int)
                        =~= prev + spec_lines_from(s@, from as int));
                }
                from = n;
            },
        }
    }
    proof {
        assert(out.deep_view() + spec_lines_from(s@, from as int) =~= out.deep_view());
    }
    out
}

} // verus!
