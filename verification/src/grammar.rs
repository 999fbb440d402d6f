//! The grammar of the pipeline language, as specification functions.
//!
//! Each function scans one production of the surface syntax over the input
//! character sequence, committed-choice and left to right: a scan either
//! succeeds with the parsed node and the position just after it, or fails
//! with the position it could not match and the production expected there.
//! The executable scanner in `scan` is proved to return exactly what these
//! functions say.
//!
//! Some branches guard a recursive call behind an explicit bounds test on
//! a previously computed position (`if p < p2 && p2 <= s.len()`). The
//! guarded branches never fail on real scans — positions only move forward
//! and stay inside the input — but the guards make the recursion
//! well-founded by construction, with the scanning position as the
//! measure.

use vstd::prelude::*;
use crate::err::{SynView, Expectation};
use crate::lit::scan_lit;
use crate::model::PostConfigView;
use crate::text::{is_quote, is_word_char, skip_ws, word_at, word_end, rtrim};
use crate::tree::{StageItemView, StageNodeView, TopItemView};

verus! {

pub open spec fn kw_pipeline() -> Seq<char> {
    seq!['p', 'i', 'p', 'e', 'l', 'i', 'n', 'e']
}

pub open spec fn kw_stage() -> Seq<char> {
    seq!['s', 't', 'a', 'g', 'e']
}

pub open spec fn kw_stages() -> Seq<char> {
    seq!['s', 't', 'a', 'g', 'e', 's']
}

pub open spec fn kw_steps() -> Seq<char> {
    seq!['s', 't', 'e', 'p', 's']
}

pub open spec fn kw_parallel() -> Seq<char> {
    seq!['p', 'a', 'r', 'a', 'l', 'l', 'e', 'l']
}

pub open spec fn kw_agent() -> Seq<char> {
    seq!['a', 'g', 'e', 'n', 't']
}

pub open spec fn kw_post() -> Seq<char> {
    seq!['p', 'o', 's', 't']
}

pub open spec fn kw_script() -> Seq<char> {
    seq!['s', 'c', 'r', 'i', 'p', 't']
}

/// Consume the rest of a brace-delimited block whose body starts at `pos`
/// with `depth` braces still open. String literals are skipped whole, so a
/// brace inside a quoted payload does not count. Returns the position just
/// after the brace that closes the outermost level.
pub open spec fn scan_block_tail(s: Seq<char>, pos: int, depth: nat) -> Result<int, SynView>
    decreases s.len() - pos,
{
    if pos < 0 || pos >= s.len() {
        Err(SynView { pos: s.len() as int, expected: Expectation::CloseBrace })
    } else if s[pos] == '}' {
        if depth <= 1 {
            Ok(pos + 1)
        } else {
            scan_block_tail(s, pos + 1, (depth - 1) as nat)
        }
    } else if s[pos] == '{' {
        scan_block_tail(s, pos + 1, depth + 1)
    } else if is_quote(s[pos]) {
        match scan_lit(s, pos) {
            Ok((l, p)) => if pos < p && p <= s.len() {
                scan_block_tail(s, p, depth)
            } else {
                Err(SynView { pos, expected: Expectation::ClosingQuote })
            },
            Err(e) => Err(e),
        }
    } else {
        scan_block_tail(s, pos + 1, depth)
    }
}

/// Consume the argument of a directive whose name ends at `pos`: either a
/// brace-delimited block, a string literal, or a single bare word.
pub open spec fn scan_directive_tail(s: Seq<char>, pos: int) -> Result<int, SynView> {
    let p = skip_ws(s, pos);
    if p >= s.len() {
        Err(SynView { pos: s.len() as int, expected: Expectation::DirectiveArgument })
    } else if s[p] == '{' {
        scan_block_tail(s, p + 1, 1)
    } else if is_quote(s[p]) {
        match scan_lit(s, p) {
            Ok((l, q)) => Ok(q),
            Err(e) => Err(e),
        }
    } else if is_word_char(s[p]) {
        Ok(word_end(s, p))
    } else {
        Err(SynView { pos: p, expected: Expectation::DirectiveArgument })
    }
}

/// End of a plain step invocation starting at or before `pos`: the first
/// line break or closing brace outside a string literal. The terminator is
/// not consumed.
pub open spec fn step_end(s: Seq<char>, pos: int) -> Result<int, SynView>
    decreases s.len() - pos,
{
    if pos < 0 || pos >= s.len() {
        Err(SynView { pos: s.len() as int, expected: Expectation::CloseBrace })
    } else if s[pos] == '\n' || s[pos] == '\r' || s[pos] == '}' {
        Ok(pos)
    } else if is_quote(s[pos]) {
        match scan_lit(s, pos) {
            Ok((l, p)) => if pos < p && p <= s.len() {
                step_end(s, p)
            } else {
                Err(SynView { pos, expected: Expectation::ClosingQuote })
            },
            Err(e) => Err(e),
        }
    } else {
        step_end(s, pos + 1)
    }
}

/// Scan one step whose text starts at `pos`. A `script` keyword followed by
/// a brace block is captured whole, braces balanced; any other step is the
/// raw text up to the end of its line or the closing brace of the `steps`
/// block, with trailing whitespace dropped.
pub open spec fn scan_step(s: Seq<char>, pos: int) -> Result<(Seq<char>, int), SynView> {
    let e = word_end(s, pos);
    let q = skip_ws(s, e);
    if word_at(s, pos, kw_script()) && q < s.len() && s[q] == '{' {
        match scan_block_tail(s, q + 1, 1) {
            Ok(end) => Ok((s.subrange(pos, end), end)),
            Err(er) => Err(er),
        }
    } else {
        match step_end(s, pos) {
            Ok(q2) => Ok((s.subrange(pos, rtrim(s, pos, q2)), q2)),
            Err(er) => Err(er),
        }
    }
}

/// Scan the body of a `steps` block (or of a post-condition block) from
/// `pos` to its closing brace: the verbatim text of each step, in source
/// order, appended to `acc`.
pub open spec fn scan_steps(s: Seq<char>, pos: int, acc: Seq<Seq<char>>) -> Result<
    (Seq<Seq<char>>, int),
    SynView,
>
    decreases s.len() - pos,
{
    let p = skip_ws(s, pos);
    if !(pos <= p <= s.len()) {
        Err(SynView { pos, expected: Expectation::CloseBrace })
    } else if p >= s.len() {
        Err(SynView { pos: s.len() as int, expected: Expectation::CloseBrace })
    } else if s[p] == '}' {
        Ok((acc, p + 1))
    } else {
        match scan_step(s, p) {
            Ok((text, p2)) => if p < p2 && p2 <= s.len() {
                scan_steps(s, p2, acc.push(text))
            } else {
                Err(SynView { pos: p, expected: Expectation::DirectiveArgument })
            },
            Err(e) => Err(e),
        }
    }
}

/// Scan one `stage` block whose keyword starts at `spos` and ends at `pos`:
/// a parenthesized name literal, then a brace-delimited body.
pub open spec fn scan_stage(s: Seq<char>, spos: int, pos: int) -> Result<
    (StageNodeView, int),
    SynView,
>
    decreases s.len() - pos, 1int,
{
    let p1 = skip_ws(s, pos);
    if p1 >= s.len() || s[p1] != '(' {
        Err(SynView { pos: p1, expected: Expectation::OpenParen })
    } else {
        match scan_lit(s, skip_ws(s, p1 + 1)) {
            Err(e) => Err(e),
            Ok((name, p3)) => {
                let p4 = skip_ws(s, p3);
                if p4 >= s.len() || s[p4] != ')' {
                    Err(SynView { pos: p4, expected: Expectation::CloseParen })
                } else {
                    let p5 = skip_ws(s, p4 + 1);
                    if p5 >= s.len() || s[p5] != '{' {
                        Err(SynView { pos: p5, expected: Expectation::OpenBrace })
                    } else if p5 >= pos {
                        match scan_stage_items(s, p5 + 1, Seq::empty()) {
                            Ok((items, p6)) => Ok((StageNodeView { pos: spos, name, items }, p6)),
                            Err(e) => Err(e),
                        }
                    } else {
                        Err(SynView { pos: p5, expected: Expectation::OpenBrace })
                    }
                }
            },
        }
    }
}

/// Scan the body of a stage from `pos` to its closing brace, dispatching
/// each entry on its directive name: `steps`, `parallel` and nested
/// `stages` are parsed into typed nodes, any other directive is accepted
/// and kept as `Other`.
pub open spec fn scan_stage_items(s: Seq<char>, pos: int, acc: Seq<StageItemView>) -> Result<
    (Seq<StageItemView>, int),
    SynView,
>
    decreases s.len() - pos, 0int,
{
    let p = skip_ws(s, pos);
    if !(pos <= p <= s.len()) {
        Err(SynView { pos, expected: Expectation::CloseBrace })
    } else if p >= s.len() {
        Err(SynView { pos: s.len() as int, expected: Expectation::CloseBrace })
    } else if s[p] == '}' {
        Ok((acc, p + 1))
    } else {
        let e = word_end(s, p);
        if e <= p {
            Err(SynView { pos: p, expected: Expectation::DirectiveName })
        } else if word_at(s, p, kw_steps()) {
            let q = skip_ws(s, e);
            if q >= s.len() || s[q] != '{' {
                Err(SynView { pos: q, expected: Expectation::OpenBrace })
            } else {
                match scan_steps(s, q + 1, Seq::empty()) {
                    Ok((texts, p2)) => if p < p2 && p2 <= s.len() {
                        scan_stage_items(s, p2, acc.push(StageItemView::Steps(texts)))
                    } else {
                        Err(SynView { pos: p, expected: Expectation::CloseBrace })
                    },
                    Err(er) => Err(er),
                }
            }
        } else if word_at(s, p, kw_parallel()) {
            let q = skip_ws(s, e);
            if q >= s.len() || s[q] != '{' {
                Err(SynView { pos: q, expected: Expectation::OpenBrace })
            } else if q >= p {
                match scan_stage_list(s, q + 1, Seq::empty()) {
                    Ok((branches, p2)) => if p < p2 && p2 <= s.len() {
                        scan_stage_items(s, p2, acc.push(StageItemView::Parallel(branches)))
                    } else {
                        Err(SynView { pos: p, expected: Expectation::CloseBrace })
                    },
                    Err(er) => Err(er),
                }
            } else {
                Err(SynView { pos: q, expected: Expectation::OpenBrace })
            }
        } else if word_at(s, p, kw_stages()) {
            let q = skip_ws(s, e);
            if q >= s.len() || s[q] != '{' {
                Err(SynView { pos: q, expected: Expectation::OpenBrace })
            } else if q >= p {
                match scan_stage_list(s, q + 1, Seq::empty()) {
                    Ok((subs, p2)) => if p < p2 && p2 <= s.len() {
                        scan_stage_items(s, p2, acc.push(StageItemView::Stages(subs)))
                    } else {
                        Err(SynView { pos: p, expected: Expectation::CloseBrace })
                    },
                    Err(er) => Err(er),
                }
            } else {
                Err(SynView { pos: q, expected: Expectation::OpenBrace })
            }
        } else {
            match scan_directive_tail(s, e) {
                Ok(p2) => if p < p2 && p2 <= s.len() {
                    scan_stage_items(s, p2, acc.push(StageItemView::Other))
                } else {
                    Err(SynView { pos: p, expected: Expectation::DirectiveArgument })
                },
                Err(er) => Err(er),
            }
        }
    }
}

/// Scan a sequence of `stage` blocks from `pos` to the closing brace of the
/// surrounding `stages` or `parallel` block, in source order.
pub open spec fn scan_stage_list(s: Seq<char>, pos: int, acc: Seq<StageNodeView>) -> Result<
    (Seq<StageNodeView>, int),
    SynView,
>
    decreases s.len() - pos, 2int,
{
    let p = skip_ws(s, pos);
    if !(pos <= p <= s.len()) {
        Err(SynView { pos, expected: Expectation::CloseBrace })
    } else if p >= s.len() {
        Err(SynView { pos: s.len() as int, expected: Expectation::CloseBrace })
    } else if s[p] == '}' {
        Ok((acc, p + 1))
    } else if word_at(s, p, kw_stage()) {
        match scan_stage(s, p, word_end(s, p)) {
            Ok((node, p2)) => if p < p2 && p2 <= s.len() {
                scan_stage_list(s, p2, acc.push(node))
            } else {
                Err(SynView { pos: p, expected: Expectation::CloseBrace })
            },
            Err(er) => Err(er),
        }
    } else {
        Err(SynView { pos: p, expected: Expectation::StageKeyword })
    }
}

/// Scan the body of a top-level `post` block: condition blocks in source
/// order, each a name and the raw lines recorded under it.
pub open spec fn scan_post_body(s: Seq<char>, pos: int, acc: Seq<PostConfigView>) -> Result<
    (Seq<PostConfigView>, int),
    SynView,
>
    decreases s.len() - pos,
{
    let p = skip_ws(s, pos);
    if !(pos <= p <= s.len()) {
        Err(SynView { pos, expected: Expectation::CloseBrace })
    } else if p >= s.len() {
        Err(SynView { pos: s.len() as int, expected: Expectation::CloseBrace })
    } else if s[p] == '}' {
        Ok((acc, p + 1))
    } else {
        let e = word_end(s, p);
        if e <= p {
            Err(SynView { pos: p, expected: Expectation::DirectiveName })
        } else {
            let q = skip_ws(s, e);
            if q >= s.len() || s[q] != '{' {
                Err(SynView { pos: q, expected: Expectation::OpenBrace })
            } else {
                match scan_steps(s, q + 1, Seq::empty()) {
                    Ok((lines, p2)) => if p < p2 && p2 <= s.len() {
                        scan_post_body(
                            s,
                            p2,
                            acc.push(PostConfigView { key: s.subrange(p, e), value: lines }),
                        )
                    } else {
                        Err(SynView { pos: p, expected: Expectation::CloseBrace })
                    },
                    Err(er) => Err(er),
                }
            }
        }
    }
}

/// Scan the body of the `pipeline` block from `pos` to its closing brace:
/// `agent`, `stages` and `post` become typed entries, every other directive
/// is accepted and kept as `Other`.
pub open spec fn scan_top_items(s: Seq<char>, pos: int, acc: Seq<TopItemView>) -> Result<
    (Seq<TopItemView>, int),
    SynView,
>
    decreases s.len() - pos,
{
    let p = skip_ws(s, pos);
    if !(pos <= p <= s.len()) {
        Err(SynView { pos, expected: Expectation::CloseBrace })
    } else if p >= s.len() {
        Err(SynView { pos: s.len() as int, expected: Expectation::CloseBrace })
    } else if s[p] == '}' {
        Ok((acc, p + 1))
    } else {
        let e = word_end(s, p);
        if e <= p {
            Err(SynView { pos: p, expected: Expectation::DirectiveName })
        } else if word_at(s, p, kw_agent()) {
            match scan_directive_tail(s, e) {
                Ok(p2) => if p < p2 && p2 <= s.len() {
                    scan_top_items(s, p2, acc.push(TopItemView::Agent(p)))
                } else {
                    Err(SynView { pos: p, expected: Expectation::DirectiveArgument })
                },
                Err(er) => Err(er),
            }
        } else if word_at(s, p, kw_stages()) {
            let q = skip_ws(s, e);
            if q >= s.len() || s[q] != '{' {
                Err(SynView { pos: q, expected: Expectation::OpenBrace })
            } else {
                match scan_stage_list(s, q + 1, Seq::empty()) {
                    Ok((stages, p2)) => if p < p2 && p2 <= s.len() {
                        scan_top_items(s, p2, acc.push(TopItemView::Stages(p, stages)))
                    } else {
                        Err(SynView { pos: p, expected: Expectation::CloseBrace })
                    },
                    Err(er) => Err(er),
                }
            }
        } else if word_at(s, p, kw_post()) {
            let q = skip_ws(s, e);
            if q >= s.len() || s[q] != '{' {
                Err(SynView { pos: q, expected: Expectation::OpenBrace })
            } else {
                match scan_post_body(s, q + 1, Seq::empty()) {
                    Ok((entries, p2)) => if p < p2 && p2 <= s.len() {
                        scan_top_items(s, p2, acc.push(TopItemView::Post(entries)))
                    } else {
                        Err(SynView { pos: p, expected: Expectation::CloseBrace })
                    },
                    Err(er) => Err(er),
                }
            }
        } else {
            match scan_directive_tail(s, e) {
                Ok(p2) => if p < p2 && p2 <= s.len() {
                    scan_top_items(s, p2, acc.push(TopItemView::Other))
                } else {
                    Err(SynView { pos: p, expected: Expectation::DirectiveArgument })
                },
                Err(er) => Err(er),
            }
        }
    }
}

/// The whole grammar: leading whitespace, the `pipeline` keyword, a
/// brace-delimited body of top-level directives, trailing whitespace, end
/// of input.
pub open spec fn scan_pipeline(s: Seq<char>) -> Result<Seq<TopItemView>, SynView> {
    let p0 = skip_ws(s, 0);
    if !word_at(s, p0, kw_pipeline()) {
        Err(SynView { pos: p0, expected: Expectation::PipelineKeyword })
    } else {
        let p1 = skip_ws(s, p0 + kw_pipeline().len());
        if p1 >= s.len() || s[p1] != '{' {
            Err(SynView { pos: p1, expected: Expectation::OpenBrace })
        } else {
            match scan_top_items(s, p1 + 1, Seq::empty()) {
                Ok((items, p2)) => {
                    let p3 = skip_ws(s, p2);
                    if p3 == s.len() {
                        Ok(items)
                    } else {
                        Err(SynView { pos: p3, expected: Expectation::EndOfInput })
                    }
                },
                Err(e) => Err(e),
            }
        }
    }
}

} // verus!
