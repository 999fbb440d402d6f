//! Character classes and low-level scanning over the input text.
//!
//! Every scanning routine exists twice: a `spec` function over `Seq<char>`
//! that defines the grammar's lexical layer mathematically, and an executable
//! counterpart proved to return exactly what the spec function says.

use vstd::prelude::*;

verus! {

/// Whitespace as the pipeline grammar understands it.
pub open spec fn is_space(c: char) -> bool {
    c == ' ' || c == '\t' || c == '\r' || c == '\n'
}

/// Characters that may form a directive or keyword name.
pub open spec fn is_word_char(c: char) -> bool {
    ('a' <= c && c <= 'z') || ('A' <= c && c <= 'Z') || ('0' <= c && c <= '9') || c == '_'
}

/// A character that opens one of the four string-literal forms.
pub open spec fn is_quote(c: char) -> bool {
    c == '\'' || c == '"'
}

/// First position at or after `pos` holding a non-whitespace character.
pub open spec fn skip_ws(s: Seq<char>, pos: int) -> int
    decreases s.len() - pos,
{
    if 0 <= pos && pos < s.len() && is_space(s[pos]) {
        skip_ws(s, pos + 1)
    } else {
        pos
    }
}

/// End of the run of word characters starting at `pos`.
pub open spec fn word_end(s: Seq<char>, pos: int) -> int
    decreases s.len() - pos,
{
    if 0 <= pos && pos < s.len() && is_word_char(s[pos]) {
        word_end(s, pos + 1)
    } else {
        pos
    }
}

/// The text `kw` occurs in `s` starting at `pos`.
pub open spec fn matches_at(s: Seq<char>, pos: int, kw: Seq<char>) -> bool {
    0 <= pos && pos + kw.len() <= s.len() && s.subrange(pos, pos + kw.len() as int) == kw
}

/// The word starting at `pos` is exactly `kw`: it matches and no further
/// word character follows it.
pub open spec fn word_at(s: Seq<char>, pos: int, kw: Seq<char>) -> bool {
    matches_at(s, pos, kw) && word_end(s, pos) == pos + kw.len()
}

/// First position at or after `pos` where `delim` occurs, if any.
pub open spec fn find_at(s: Seq<char>, pos: int, delim: Seq<char>) -> Option<int>
    decreases s.len() - pos,
{
    if pos < 0 || pos >= s.len() {
        None
    } else if matches_at(s, pos, delim) {
        Some(pos)
    } else {
        find_at(s, pos + 1, delim)
    }
}

/// Position after dropping trailing whitespace from the range `start..end`.
pub open spec fn rtrim(s: Seq<char>, start: int, end: int) -> int
    decreases end - start,
{
    if start < end && end <= s.len() && is_space(s[end - 1]) {
        rtrim(s, start, end - 1)
    } else {
        end
    }
}

// ---------------------------------------------------------------------------
// Executable counterparts
// ---------------------------------------------------------------------------

pub fn is_space_x(c: char) -> (r: bool)
    ensures
        r == is_space(c),
{
    c == ' ' || c == '\t' || c == '\r' || c == '\n'
}

pub fn is_word_char_x(c: char) -> (r: bool)
    ensures
        r == is_word_char(c),
{
    ('a' <= c && c <= 'z') || ('A' <= c && c <= 'Z') || ('0' <= c && c <= '9') || c == '_'
}

pub fn is_quote_x(c: char) -> (r: bool)
    ensures
        r == is_quote(c),
{
    c == '\'' || c == '"'
}

pub fn skip_ws_x(s: &str, pos: usize) -> (r: usize)
    requires
        pos <= s@.len(),
    ensures
        r == skip_ws(s@, pos as int),
        pos <= r <= s@.len(),
        r < s@.len() ==> !is_space(s@[r as int]),
{
    let n: usize = s.unicode_len();
    let mut i: usize = pos;
    loop
        invariant
            pos <= i <= n,
            n == s@.len(),
            skip_ws(s@, pos as int) == skip_ws(s@, i as int),
        decreases n - i,
    {
        if i < n && is_space_x(s.get_char(i)) {
            i = i + 1;
        } else {
            return i;
        }
    }
}

pub fn word_end_x(s: &str, pos: usize) -> (r: usize)
    requires
        pos <= s@.len(),
    ensures
        r == word_end(s@, pos as int),
        pos <= r <= s@.len(),
{
    let n: usize = s.unicode_len();
    let mut i: usize = pos;
    loop
        invariant
            pos <= i <= n,
            n == s@.len(),
            word_end(s@, pos as int) == word_end(s@, i as int),
        decreases n - i,
    {
        if i < n && is_word_char_x(s.get_char(i)) {
            i = i + 1;
        } else {
            return i;
        }
    }
}

pub fn matches_at_x(s: &str, pos: usize, kw: &str) -> (r: bool)
    ensures
        r == matches_at(s@, pos as int, kw@),
{
    let n: usize = s.unicode_len();
    let k: usize = kw.unicode_len();
    if pos > n || k > n - pos {
        return false;
    }
    let mut j: usize = 0;
    loop
        invariant
            0 <= j <= k,
            k == kw@.len(),
            n == s@.len(),
            pos + k <= n,
            forall|t: int| 0 <= t < j ==> s@[pos + t] == kw@[t],
        decreases k - j,
    {
        if j < k {
            if s.get_char(pos + j) != kw.get_char(j) {
                assert(s@.subrange(pos as int, pos + k as int)[j as int] != kw@[j as int]);
                return false;
            }
            j = j + 1;
        } else {
            assert(s@.subrange(pos as int, pos + k as int) =~= kw@);
            return true;
        }
    }
}

/// Whole-word keyword test at `pos`.
pub fn word_at_x(s: &str, pos: usize, kw: &str) -> (r: bool)
    requires
        pos <= s@.len(),
    ensures
        r == word_at(s@, pos as int, kw@),
{
    if !matches_at_x(s, pos, kw) {
        return false;
    }
    let n: usize = s.unicode_len();
    let k: usize = kw.unicode_len();
    let e: usize = word_end_x(s, pos);
    assert(pos + k <= n);
    e == pos + k
}

pub fn find_at_x(s: &str, pos: usize, delim: &str) -> (r: Option<usize>)
    requires
        pos <= s@.len(),
    ensures
        match r {
            Some(p) => find_at(s@, pos as int, delim@) == Some(p as int) && pos <= p && p
                + delim@.len() <= s@.len(),
            None => find_at(s@, pos as int, delim@) is None,
        },
{
    let n: usize = s.unicode_len();
    let mut i: usize = pos;
    loop
        invariant
            pos <= i <= n,
            n == s@.len(),
            find_at(s@, pos as int, delim@) == find_at(s@, i as int, delim@),
        decreases n - i,
    {
        if i >= n {
            return None;
        }
        if matches_at_x(s, i, delim) {
            return Some(i);
        }
        i = i + 1;
    }
}

pub fn rtrim_x(s: &str, start: usize, end: usize) -> (r: usize)
    requires
        start <= end,
        end <= s@.len(),
    ensures
        r == rtrim(s@, start as int, end as int),
        start <= r <= end,
{
    let mut e: usize = end;
    loop
        invariant
            start <= e <= end,
            end <= s@.len(),
            rtrim(s@, start as int, end as int) == rtrim(s@, start as int, e as int),
        decreases e,
    {
        if start < e && is_space_x(s.get_char(e - 1)) {
            e = e - 1;
        } else {
            return e;
        }
    }
}

} // verus!
