//! The executable scanner.
//!
//! Each function here is the executable counterpart of one production in
//! `grammar`, and its contract says that it returns exactly what the
//! specification function returns: the same node and position on success,
//! the same position and expectation on failure.

use vstd::prelude::*;
use crate::err::SynFail;
use crate::err::Expectation;
use crate::grammar::{
    kw_agent, kw_parallel, kw_pipeline, kw_post, kw_script, kw_stage, kw_stages, kw_steps,
    scan_block_tail, scan_directive_tail, scan_pipeline, scan_post_body, scan_stage,
    scan_stage_items, scan_stage_list, scan_step, scan_steps, scan_top_items, step_end,
};
use crate::err::SynView;
use crate::lit::scan_lit_x;
use crate::model::{PostConfig, PostConfigView};
use crate::text::{is_quote_x, is_word_char_x, rtrim_x, skip_ws_x, word_at_x, word_end_x};
use crate::tree::{
    lemma_stage_items_view_push, lemma_stage_nodes_view_push, lemma_top_items_view_push,
    stage_items_view, stage_nodes_view, top_items_view, StageItem, StageNode, TopItem,
};

verus! {

pub fn scan_block_tail_x(s: &str, pos: usize, depth: usize) -> (r: Result<usize, SynFail>)
    requires
        1 <= depth <= pos <= s@.len(),
    ensures
        match r {
            Ok(p) => scan_block_tail(s@, pos as int, depth as nat) == Ok::<int, SynView>(p as int)
                && pos < p <= s@.len(),
            Err(e) => scan_block_tail(s@, pos as int, depth as nat) == Err::<int, SynView>(e@),
        },
{
    let n: usize = s.unicode_len();
    let mut cur: usize = pos;
    let mut d: usize = depth;
    loop
        invariant
            pos <= cur <= n,
            n == s@.len(),
            1 <= d,
            d <= depth + cur - pos,
            depth <= pos,
            scan_block_tail(s@, pos as int, depth as nat) == scan_block_tail(
                s@,
                cur as int,
                d as nat,
            ),
        decreases n - cur,
    {
        if cur >= n {
            return Err(SynFail { pos: n, expected: Expectation::CloseBrace });
        }
        let c = s.get_char(cur);
        if c == '}' {
            if d <= 1 {
                return Ok(cur + 1);
            }
            d = d - 1;
            cur = cur + 1;
        } else if c == '{' {
            d = d + 1;
            cur = cur + 1;
        } else if is_quote_x(c) {
            match scan_lit_x(s, cur) {
                Ok((_l, p)) => {
                    cur = p;
                },
                Err(e) => {
                    return Err(e);
                },
            }
        } else {
            cur = cur + 1;
        }
    }
}

pub fn step_end_x(s: &str, pos: usize) -> (r: Result<usize, SynFail>)
    requires
        pos <= s@.len(),
    ensures
        match r {
            Ok(p) => step_end(s@, pos as int) == Ok::<int, SynView>(p as int) && pos <= p
                <= s@.len(),
            Err(e) => step_end(s@, pos as int) == Err::<int, SynView>(e@),
        },
{
    let n: usize = s.unicode_len();
    let mut cur: usize = pos;
    loop
        invariant
            pos <= cur <= n,
            n == s@.len(),
            step_end(s@, pos as int) == step_end(s@, cur as int),
        decreases n - cur,
    {
        if cur >= n {
            return Err(SynFail { pos: n, expected: Expectation::CloseBrace });
        }
        let c = s.get_char(cur);
        if c == '\n' || c == '\r' || c == '}' {
            return Ok(cur);
        } else if is_quote_x(c) {
            match scan_lit_x(s, cur) {
                Ok((_l, p)) => {
                    cur = p;
                },
                Err(e) => {
                    return Err(e);
                },
            }
        } else {
            cur = cur + 1;
        }
    }
}

pub fn scan_step_x(s: &str, pos: usize) -> (r: Result<(String, usize), SynFail>)
    requires
        pos <= s@.len(),
    ensures
        match r {
            Ok((text, p)) => scan_step(s@, pos as int) == Ok::<(Seq<char>, int), SynView>(
                (text@, p as int),
            ) && pos <= p <= s@.len(),
            Err(e) => scan_step(s@, pos as int) == Err::<(Seq<char>, int), SynView>(e@),
        },
{
    proof {
        reveal_strlit("script");
        assert("script"@ =~= kw_script());
    }
    let n: usize = s.unicode_len();
    let e: usize = word_end_x(s, pos);
    let q: usize = skip_ws_x(s, e);
    if word_at_x(s, pos, "script") && q < n && s.get_char(q) == '{' {
        match scan_block_tail_x(s, q + 1, 1) {
            Ok(end) => {
                let text = s.substring_char(pos, end);
                Ok((text.to_owned(), end))
            },
            Err(er) => Err(er),
        }
    } else {
        match step_end_x(s, pos) {
            Ok(q2) => {
                let t = rtrim_x(s, pos, q2);
                let text = s.substring_char(pos, t);
                Ok((text.to_owned(), q2))
            },
            Err(er) => Err(er),
        }
    }
}

pub fn scan_steps_x(s: &str, pos: usize) -> (r: Result<(Vec<String>, usize), SynFail>)
    requires
        pos <= s@.len(),
    ensures
        match r {
            Ok((texts, p)) => scan_steps(s@, pos as int, Seq::empty()) == Ok::<
                (Seq<Seq<char>>, int),
                SynView,
            >((texts.deep_view(), p as int)) && pos < p <= s@.len(),
            Err(e) => scan_steps(s@, pos as int, Seq::empty()) == Err::<
                (Seq<Seq<char>>, int),
                SynView,
            >(e@),
        },
{
    let n: usize = s.unicode_len();
    let mut cur: usize = pos;
    let mut acc: Vec<String> = Vec::new();
    proof {
        assert(acc.deep_view() =~= Seq::<Seq<char>>::empty());
    }
    loop
        invariant
            pos <= cur <= n,
            n == s@.len(),
            scan_steps(s@, pos as int, Seq::empty()) == scan_steps(
                s@,
                cur as int,
                acc.deep_view(),
            ),
        decreases n - cur,
    {
        let p = skip_ws_x(s, cur);
        if p >= n {
            return Err(SynFail { pos: n, expected: Expectation::CloseBrace });
        }
        if s.get_char(p) == '}' {
            return Ok((acc, p + 1));
        }
        match scan_step_x(s, p) {
            Ok((text, p2)) => {
                if p2 <= p {
                    return Err(SynFail { pos: p, expected: Expectation::DirectiveArgument });
                }
                let ghost old_acc = acc;
                let ghost tv = text@;
                acc.push(text);
                proof {
                    assert(acc.deep_view() =~= old_acc.deep_view().push(tv));
                }
                cur = p2;
            },
            Err(e) => {
                return Err(e);
            },
        }
    }
}

pub fn scan_directive_tail_x(s: &str, pos: usize) -> (r: Result<usize, SynFail>)
    requires
        pos <= s@.len(),
    ensures
        match r {
            Ok(p) => scan_directive_tail(s@, pos as int) == Ok::<int, SynView>(p as int) && p
                <= s@.len(),
            Err(e) => scan_directive_tail(s@, pos as int) == Err::<int, SynView>(e@),
        },
{
    let n: usize = s.unicode_len();
    let p = skip_ws_x(s, pos);
    if p >= n {
        return Err(SynFail { pos: n, expected: Expectation::DirectiveArgument });
    }
    let c = s.get_char(p);
    if c == '{' {
        scan_block_tail_x(s, p + 1, 1)
    } else if is_quote_x(c) {
        match scan_lit_x(s, p) {
            Ok((_l, q)) => Ok(q),
            Err(e) => Err(e),
        }
    } else if is_word_char_x(c) {
        Ok(word_end_x(s, p))
    } else {
        Err(SynFail { pos: p, expected: Expectation::DirectiveArgument })
    }
}

pub fn scan_stage_x(s: &str, spos: usize, pos: usize) -> (r: Result<(StageNode, usize), SynFail>)
    requires
        pos <= s@.len(),
    ensures
        match r {
            Ok((node, p)) => scan_stage(s@, spos as int, pos as int) == Ok::<
                (crate::tree::StageNodeView, int),
                SynView,
            >((node@, p as int)) && p <= s@.len(),
            Err(e) => scan_stage(s@, spos as int, pos as int) == Err::<
                (crate::tree::StageNodeView, int),
                SynView,
            >(e@),
        },
    decreases s@.len() - pos, 1int,
{
    let n: usize = s.unicode_len();
    let p1 = skip_ws_x(s, pos);
    if p1 >= n || s.get_char(p1) != '(' {
        return Err(SynFail { pos: p1, expected: Expectation::OpenParen });
    }
    let p2 = skip_ws_x(s, p1 + 1);
    match scan_lit_x(s, p2) {
        Err(e) => Err(e),
        Ok((name, p3)) => {
            let p4 = skip_ws_x(s, p3);
            if p4 >= n || s.get_char(p4) != ')' {
                return Err(SynFail { pos: p4, expected: Expectation::CloseParen });
            }
            let p5 = skip_ws_x(s, p4 + 1);
            if p5 >= n || s.get_char(p5) != '{' {
                return Err(SynFail { pos: p5, expected: Expectation::OpenBrace });
            }
            match scan_stage_items_x(s, p5 + 1) {
                Ok((items, p6)) => {
                    let node = StageNode { pos: spos, name, items };
                    proof {
                        assert(node@.items =~= stage_items_view(node.items));
                    }
                    Ok((node, p6))
                },
                Err(e) => Err(e),
            }
        },
    }
}

#[verifier::rlimit(80)]
#[verifier::loop_isolation(false)]
pub fn scan_stage_items_x(s: &str, pos: usize) -> (r: Result<(Vec<StageItem>, usize), SynFail>)
    requires
        pos <= s@.len(),
    ensures
        match r {
            Ok((items, p)) => scan_stage_items(s@, pos as int, Seq::empty()) == Ok::<
                (Seq<crate::tree::StageItemView>, int),
                SynView,
            >((stage_items_view(items), p as int)) && pos < p <= s@.len(),
            Err(e) => scan_stage_items(s@, pos as int, Seq::empty()) == Err::<
                (Seq<crate::tree::StageItemView>, int),
                SynView,
            >(e@),
        },
    decreases s@.len() - pos, 0int,
{
    proof {
        reveal_strlit("steps");
        reveal_strlit("parallel");
        reveal_strlit("stages");
        assert("steps"@ =~= kw_steps());
        assert("parallel"@ =~= kw_parallel());
        assert("stages"@ =~= kw_stages());
    }
    let n: usize = s.unicode_len();
    let mut cur: usize = pos;
    let mut acc: Vec<StageItem> = Vec::new();
    proof {
        assert(stage_items_view(acc) =~= Seq::<crate::tree::StageItemView>::empty());
    }
    loop
        invariant
            pos <= cur <= n,
            n == s@.len(),
            scan_stage_items(s@, pos as int, Seq::empty()) == scan_stage_items(
                s@,
                cur as int,
                stage_items_view(acc),
            ),
        decreases n - cur,
    {
        let p = skip_ws_x(s, cur);
        if p >= n {
            return Err(SynFail { pos: n, expected: Expectation::CloseBrace });
        }
        if s.get_char(p) == '}' {
            return Ok((acc, p + 1));
        }
        let e = word_end_x(s, p);
        if e <= p {
            return Err(SynFail { pos: p, expected: Expectation::DirectiveName });
        }
        if word_at_x(s, p, "steps") {
            let q = skip_ws_x(s, e);
            if q >= n || s.get_char(q) != '{' {
                return Err(SynFail { pos: q, expected: Expectation::OpenBrace });
            }
            match scan_steps_x(s, q + 1) {
                Ok((texts, p2)) => {
                    if p2 <= p {
                        return Err(SynFail { pos: p, expected: Expectation::CloseBrace });
                    }
                    let ghost oa = acc;
                    let item = StageItem::Steps { steps: texts };
                    let ghost itg = item;
                    acc.push(item);
                    proof {
                        lemma_stage_items_view_push(oa, acc, itg);
                    }
                    cur = p2;
                },
                Err(er) => {
                    return Err(er);
                },
            }
        } else if word_at_x(s, p, "parallel") {
            let q = skip_ws_x(s, e);
            if q >= n || s.get_char(q) != '{' {
                return Err(SynFail { pos: q, expected: Expectation::OpenBrace });
            }
            match scan_stage_list_x(s, q + 1) {
                Ok((branches, p2)) => {
                    if p2 <= p {
                        return Err(SynFail { pos: p, expected: Expectation::CloseBrace });
                    }
                    let ghost oa = acc;
                    let item = StageItem::Parallel { stages: branches };
                    let ghost itg = item;
                    acc.push(item);
                    proof {
                        lemma_stage_items_view_push(oa, acc, itg);
                    }
                    cur = p2;
                },
                Err(er) => {
                    return Err(er);
                },
            }
        } else if word_at_x(s, p, "stages") {
            let q = skip_ws_x(s, e);
            if q >= n || s.get_char(q) != '{' {
                return Err(SynFail { pos: q, expected: Expectation::OpenBrace });
            }
            match scan_stage_list_x(s, q + 1) {
                Ok((subs, p2)) => {
                    if p2 <= p {
                        return Err(SynFail { pos: p, expected: Expectation::CloseBrace });
                    }
                    let ghost oa = acc;
                    let item = StageItem::Stages { stages: subs };
                    let ghost itg = item;
                    acc.push(item);
                    proof {
                        lemma_stage_items_view_push(oa, acc, itg);
                    }
                    cur = p2;
                },
                Err(er) => {
                    return Err(er);
                },
            }
        } else {
            match scan_directive_tail_x(s, e) {
                Ok(p2) => {
                    if p2 <= p {
                        return Err(SynFail { pos: p, expected: Expectation::DirectiveArgument });
                    }
                    let ghost oa = acc;
                    acc.push(StageItem::Other);
                    proof {
                        lemma_stage_items_view_push(oa, acc, StageItem::Other);
                    }
                    cur = p2;
                },
                Err(er) => {
                    return Err(er);
                },
            }
        }
    }
}

#[verifier::rlimit(80)]
#[verifier::loop_isolation(false)]
pub fn scan_stage_list_x(s: &str, pos: usize) -> (r: Result<(Vec<StageNode>, usize), SynFail>)
    requires
        pos <= s@.len(),
    ensures
        match r {
            Ok((nodes, p)) => scan_stage_list(s@, pos as int, Seq::empty()) == Ok::<
                (Seq<crate::tree::StageNodeView>, int),
                SynView,
            >((stage_nodes_view(nodes), p as int)) && pos < p <= s@.len(),
            Err(e) => scan_stage_list(s@, pos as int, Seq::empty()) == Err::<
                (Seq<crate::tree::StageNodeView>, int),
                SynView,
            >(e@),
        },
    decreases s@.len() - pos, 2int,
{
    proof {
        reveal_strlit("stage");
        assert("stage"@ =~= kw_stage());
    }
    let n: usize = s.unicode_len();
    let mut cur: usize = pos;
    let mut acc: Vec<StageNode> = Vec::new();
    proof {
        assert(stage_nodes_view(acc) =~= Seq::<crate::tree::StageNodeView>::empty());
    }
    loop
        invariant
            pos <= cur <= n,
            n == s@.len(),
            scan_stage_list(s@, pos as int, Seq::empty()) == scan_stage_list(
                s@,
                cur as int,
                stage_nodes_view(acc),
            ),
        decreases n - cur,
    {
        let p = skip_ws_x(s, cur);
        if p >= n {
            return Err(SynFail { pos: n, expected: Expectation::CloseBrace });
        }
        if s.get_char(p) == '}' {
            return Ok((acc, p + 1));
        }
        if !word_at_x(s, p, "stage") {
            return Err(SynFail { pos: p, expected: Expectation::StageKeyword });
        }
        let e = word_end_x(s, p);
        match scan_stage_x(s, p, e) {
            Ok((node, p2)) => {
                if p2 <= p {
                    return Err(SynFail { pos: p, expected: Expectation::CloseBrace });
                }
                let ghost oa = acc;
                let ghost ng = node;
                acc.push(node);
                proof {
                    lemma_stage_nodes_view_push(oa, acc, ng);
                }
                cur = p2;
            },
            Err(er) => {
                return Err(er);
            },
        }
    }
}

pub fn scan_post_body_x(s: &str, pos: usize) -> (r: Result<(Vec<PostConfig>, usize), SynFail>)
    requires
        pos <= s@.len(),
    ensures
        match r {
            Ok((entries, p)) => scan_post_body(s@, pos as int, Seq::empty()) == Ok::<
                (Seq<PostConfigView>, int),
                SynView,
            >((entries.deep_view(), p as int)) && pos < p <= s@.len(),
            Err(e) => scan_post_body(s@, pos as int, Seq::empty()) == Err::<
                (Seq<PostConfigView>, int),
                SynView,
            >(e@),
        },
{
    let n: usize = s.unicode_len();
    let mut cur: usize = pos;
    let mut acc: Vec<PostConfig> = Vec::new();
    proof {
        assert(acc.deep_view() =~= Seq::<PostConfigView>::empty());
    }
    loop
        invariant
            pos <= cur <= n,
            n == s@.len(),
            scan_post_body(s@, pos as int, Seq::empty()) == scan_post_body(
                s@,
                cur as int,
                acc.deep_view(),
            ),
        decreases n - cur,
    {
        let p = skip_ws_x(s, cur);
        if p >= n {
            return Err(SynFail { pos: n, expected: Expectation::CloseBrace });
        }
        if s.get_char(p) == '}' {
            return Ok((acc, p + 1));
        }
        let e = word_end_x(s, p);
        if e <= p {
            return Err(SynFail { pos: p, expected: Expectation::DirectiveName });
        }
        let q = skip_ws_x(s, e);
        if q >= n || s.get_char(q) != '{' {
            return Err(SynFail { pos: q, expected: Expectation::OpenBrace });
        }
        match scan_steps_x(s, q + 1) {
            Ok((lines, p2)) => {
                if p2 <= p {
                    return Err(SynFail { pos: p, expected: Expectation::CloseBrace });
                }
                let key = s.substring_char(p, e);
                let ghost oa = acc;
                let entry = PostConfig { key: key.to_owned(), value: lines };
                let ghost eg = entry;
                acc.push(entry);
                proof {
                    assert(acc.deep_view() =~= oa.deep_view().push(eg@));
                }
                cur = p2;
            },
            Err(er) => {
                return Err(er);
            },
        }
    }
}

#[verifier::rlimit(80)]
#[verifier::loop_isolation(false)]
pub fn scan_top_items_x(s: &str, pos: usize) -> (r: Result<(Vec<TopItem>, usize), SynFail>)
    requires
        pos <= s@.len(),
    ensures
        match r {
            Ok((items, p)) => scan_top_items(s@, pos as int, Seq::empty()) == Ok::<
                (Seq<crate::tree::TopItemView>, int),
                SynView,
            >((top_items_view(items), p as int)) && pos < p <= s@.len(),
            Err(e) => scan_top_items(s@, pos as int, Seq::empty()) == Err::<
                (Seq<crate::tree::TopItemView>, int),
                SynView,
            >(e@),
        },
{
    proof {
        reveal_strlit("agent");
        reveal_strlit("stages");
        reveal_strlit("post");
        assert("agent"@ =~= kw_agent());
        assert("stages"@ =~= kw_stages());
        assert("post"@ =~= kw_post());
    }
    let n: usize = s.unicode_len();
    let mut cur: usize = pos;
    let mut acc: Vec<TopItem> = Vec::new();
    proof {
        assert(top_items_view(acc) =~= Seq::<crate::tree::TopItemView>::empty());
    }
    loop
        invariant
            pos <= cur <= n,
            n == s@.len(),
            scan_top_items(s@, pos as int, Seq::empty()) == scan_top_items(
                s@,
                cur as int,
                top_items_view(acc),
            ),
        decreases n - cur,
    {
        let p = skip_ws_x(s, cur);
        if p >= n {
            return Err(SynFail { pos: n, expected: Expectation::CloseBrace });
        }
        if s.get_char(p) == '}' {
            return Ok((acc, p + 1));
        }
        let e = word_end_x(s, p);
        if e <= p {
            return Err(SynFail { pos: p, expected: Expectation::DirectiveName });
        }
        if word_at_x(s, p, "agent") {
            match scan_directive_tail_x(s, e) {
                Ok(p2) => {
                    if p2 <= p {
                        return Err(SynFail { pos: p, expected: Expectation::DirectiveArgument });
                    }
                    let ghost oa = acc;
                    acc.push(TopItem::Agent { pos: p });
                    proof {
                        lemma_top_items_view_push(oa, acc, TopItem::Agent { pos: p });
                    }
                    cur = p2;
                },
                Err(er) => {
                    return Err(er);
                },
            }
        } else if word_at_x(s, p, "stages") {
            let q = skip_ws_x(s, e);
            if q >= n || s.get_char(q) != '{' {
                return Err(SynFail { pos: q, expected: Expectation::OpenBrace });
            }
            match scan_stage_list_x(s, q + 1) {
                Ok((stage_nodes, p2)) => {
                    if p2 <= p {
                        return Err(SynFail { pos: p, expected: Expectation::CloseBrace });
                    }
                    let ghost oa = acc;
                    let item = TopItem::Stages { pos: p, stages: stage_nodes };
                    let ghost itg = item;
                    acc.push(item);
                    proof {
                        lemma_top_items_view_push(oa, acc, itg);
                    }
                    cur = p2;
                },
                Err(er) => {
                    return Err(er);
                },
            }
        } else if word_at_x(s, p, "post") {
            let q = skip_ws_x(s, e);
            if q >= n || s.get_char(q) != '{' {
                return Err(SynFail { pos: q, expected: Expectation::OpenBrace });
            }
            match scan_post_body_x(s, q + 1) {
                Ok((entries, p2)) => {
                    if p2 <= p {
                        return Err(SynFail { pos: p, expected: Expectation::CloseBrace });
                    }
                    let ghost oa = acc;
                    let item = TopItem::Post { entries };
                    let ghost itg = item;
                    acc.push(item);
                    proof {
                        lemma_top_items_view_push(oa, acc, itg);
                    }
                    cur = p2;
                },
                Err(er) => {
                    return Err(er);
                },
            }
        } else {
            match scan_directive_tail_x(s, e) {
                Ok(p2) => {
                    if p2 <= p {
                        return Err(SynFail { pos: p, expected: Expectation::DirectiveArgument });
                    }
                    let ghost oa = acc;
                    acc.push(TopItem::Other);
                    proof {
                        lemma_top_items_view_push(oa, acc, TopItem::Other);
                    }
                    cur = p2;
                },
                Err(er) => {
                    return Err(er);
                },
            }
        }
    }
}

/// Run the grammar over the whole input: the concrete parse tree of the
/// `pipeline` block, or the syntax failure the grammar stopped at.
pub fn scan_pipeline_x(s: &str) -> (r: Result<Vec<TopItem>, SynFail>)
    ensures
        match r {
            Ok(items) => scan_pipeline(s@) == Ok::<Seq<crate::tree::TopItemView>, SynView>(
                top_items_view(items),
            ),
            Err(e) => scan_pipeline(s@) == Err::<Seq<crate::tree::TopItemView>, SynView>(e@),
        },
{
    proof {
        reveal_strlit("pipeline");
        assert("pipeline"@ =~= kw_pipeline());
    }
    let n: usize = s.unicode_len();
    let p0 = skip_ws_x(s, 0);
    if !word_at_x(s, p0, "pipeline") {
        return Err(SynFail { pos: p0, expected: Expectation::PipelineKeyword });
    }
    assert(p0 + 8 <= n);
    let p1 = skip_ws_x(s, p0 + 8);
    if p1 >= n || s.get_char(p1) != '{' {
        return Err(SynFail { pos: p1, expected: Expectation::OpenBrace });
    }
    match scan_top_items_x(s, p1 + 1) {
        Ok((items, p2)) => {
            let p3 = skip_ws_x(s, p2);
            if p3 == n {
                Ok(items)
            } else {
                Err(SynFail { pos: p3, expected: Expectation::EndOfInput })
            }
        },
        Err(e) => Err(e),
    }
}

} // verus!
