//! String literals: the four quoting forms and their decoder.
//!
//! The grammar recognizes single-quoted, double-quoted, triple-single-quoted
//! and triple-double-quoted literals. A literal node keeps its quoting style
//! and its raw payload; the decoder returns the payload alone, so all four
//! styles receive identical downstream treatment.

use vstd::prelude::*;
use crate::text::{find_at, matches_at, find_at_x, matches_at_x};
use crate::err::{SynView, Expectation};

verus! {

/// A string-literal node of the concrete parse tree: one of the four
/// quoting forms, carrying the raw payload between the delimiters.
#[derive(Debug, PartialEq, Eq)]
pub enum StringLit {
    Single(String),
    Double(String),
    TripleSingle(String),
    TripleDouble(String),
}

/// Mathematical model of a literal node.
pub enum LitView {
    Single(Seq<char>),
    Double(Seq<char>),
    TripleSingle(Seq<char>),
    TripleDouble(Seq<char>),
}

impl View for StringLit {
    type V = LitView;

    open spec fn view(&self) -> LitView {
        match self {
            StringLit::Single(p) => LitView::Single(p@),
            StringLit::Double(p) => LitView::Double(p@),
            StringLit::TripleSingle(p) => LitView::TripleSingle(p@),
            StringLit::TripleDouble(p) => LitView::TripleDouble(p@),
        }
    }
}

/// Payload of a literal, whatever its quoting style.
pub open spec fn lit_payload(l: LitView) -> Seq<char> {
    match l {
        LitView::Single(p) => p,
        LitView::Double(p) => p,
        LitView::TripleSingle(p) => p,
        LitView::TripleDouble(p) => p,
    }
}

/// Scan one string literal starting exactly at `pos`.
///
/// A triple delimiter is tried before the matching single delimiter, so
/// `'''` opens a triple-single-quoted literal, never an empty single-quoted
/// one. On success the result carries the literal and the position just
/// after the closing delimiter. An unclosed literal fails at the end of the
/// input; a position holding no quote character fails at `pos`.
pub open spec fn scan_lit(s: Seq<char>, pos: int) -> Result<(LitView, int), SynView> {
    if matches_at(s, pos, seq!['\'', '\'', '\'']) {
        match find_at(s, pos + 3, seq!['\'', '\'', '\'']) {
            Some(p) => Ok((LitView::TripleSingle(s.subrange(pos + 3, p)), p + 3)),
            None => Err(SynView { pos: s.len() as int, expected: Expectation::ClosingQuote }),
        }
    } else if matches_at(s, pos, seq!['"', '"', '"']) {
        match find_at(s, pos + 3, seq!['"', '"', '"']) {
            Some(p) => Ok((LitView::TripleDouble(s.subrange(pos + 3, p)), p + 3)),
            None => Err(SynView { pos: s.len() as int, expected: Expectation::ClosingQuote }),
        }
    } else if 0 <= pos && pos < s.len() && s[pos] == '\'' {
        match find_at(s, pos + 1, seq!['\'']) {
            Some(p) => Ok((LitView::Single(s.subrange(pos + 1, p)), p + 1)),
            None => Err(SynView { pos: s.len() as int, expected: Expectation::ClosingQuote }),
        }
    } else if 0 <= pos && pos < s.len() && s[pos] == '"' {
        match find_at(s, pos + 1, seq!['"']) {
            Some(p) => Ok((LitView::Double(s.subrange(pos + 1, p)), p + 1)),
            None => Err(SynView { pos: s.len() as int, expected: Expectation::ClosingQuote }),
        }
    } else {
        Err(SynView { pos, expected: Expectation::StringLiteral })
    }
}

impl StringLit {
    /// Decoded payload of this literal node: the text between the
    /// delimiters, identical for all four quoting styles.
    pub fn decode(&self) -> (r: &String)
        ensures
            r@ == lit_payload(self@),
    {
        match self {
            StringLit::Single(p) => p,
            StringLit::Double(p) => p,
            StringLit::TripleSingle(p) => p,
            StringLit::TripleDouble(p) => p,
        }
    }
}

pub fn scan_lit_x(s: &str, pos: usize) -> (r: Result<(StringLit, usize), crate::err::SynFail>)
    requires
        pos <= s@.len(),
    ensures
        match r {
            Ok((l, p)) => scan_lit(s@, pos as int) == Ok::<(LitView, int), SynView>((l@, p as int))
                && pos < p <= s@.len(),
            Err(e) => scan_lit(s@, pos as int) == Err::<(LitView, int), SynView>(e@),
        },
{
    let n: usize = s.unicode_len();
    proof {
        reveal_strlit("'''");
        reveal_strlit("\"\"\"");
        reveal_strlit("'");
        reveal_strlit("\"");
        assert("'''"@ =~= seq!['\'', '\'', '\'']);
        assert("\"\"\""@ =~= seq!['"', '"', '"']);
        assert("'"@ =~= seq!['\'']);
        assert("\""@ =~= seq!['"']);
    }
    if matches_at_x(s, pos, "'''") {
        match find_at_x(s, pos + 3, "'''") {
            Some(p) => {
                let payload = s.substring_char(pos + 3, p);
                Ok((StringLit::TripleSingle(payload.to_owned()), p + 3))
            },
            None => Err(crate::err::SynFail { pos: n, expected: Expectation::ClosingQuote }),
        }
    } else if matches_at_x(s, pos, "\"\"\"") {
        match find_at_x(s, pos + 3, "\"\"\"") {
            Some(p) => {
                let payload = s.substring_char(pos + 3, p);
                Ok((StringLit::TripleDouble(payload.to_owned()), p + 3))
            },
            None => Err(crate::err::SynFail { pos: n, expected: Expectation::ClosingQuote }),
        }
    } else if pos < n && s.get_char(pos) == '\'' {
        match find_at_x(s, pos + 1, "'") {
            Some(p) => {
                let payload = s.substring_char(pos + 1, p);
                Ok((StringLit::Single(payload.to_owned()), p + 1))
            },
            None => Err(crate::err::SynFail { pos: n, expected: Expectation::ClosingQuote }),
        }
    } else if pos < n && s.get_char(pos) == '"' {
        match find_at_x(s, pos + 1, "\"") {
            Some(p) => {
                let payload = s.substring_char(pos + 1, p);
                Ok((StringLit::Double(payload.to_owned()), p + 1))
            },
            None => Err(crate::err::SynFail { pos: n, expected: Expectation::ClosingQuote }),
        }
    } else {
        Err(crate::err::SynFail { pos, expected: Expectation::StringLiteral })
    }
}

} // verus!
