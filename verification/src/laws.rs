//! Laws of the parser: properties that hold of every input, stated over
//! the specification functions the public contracts use, and proved here.

use vstd::prelude::*;
use crate::err::{DirectiveKind, ErrView, SynView};
use crate::grammar::scan_pipeline;
use crate::lit::{lit_payload, scan_lit, LitView};
use crate::text::{find_at, matches_at};
use crate::builder::{build_doc_acc, build_stage, build_stage_acc, build_stage_list};
use crate::model::{DocView, StageView};
use crate::tree::{StageItemView, StageNodeView, TopItemView};
use crate::validate::{
    card_check, is_content_item, items_content_violation, list_content_violation,
    stage_content_violation, stage_has_content, top_content_violation,
};
use crate::{is_declarative_spec, parse_spec};

verus! {

broadcast use vstd::seq::axiom_seq_index_decreases;

/// How many `agent` directives stand in `items` from index `i` on.
pub open spec fn agent_count_from(items: Seq<TopItemView>, i: int) -> int
    decreases items.len() - i,
{
    if i < 0 || i >= items.len() {
        0
    } else if items[i] is Agent {
        1 + agent_count_from(items, i + 1)
    } else {
        agent_count_from(items, i + 1)
    }
}

/// Some `stages` directive stands in `items` from index `i` on.
pub open spec fn has_stages_from(items: Seq<TopItemView>, i: int) -> bool
    decreases items.len() - i,
{
    if i < 0 || i >= items.len() {
        false
    } else {
        items[i] is Stages || has_stages_from(items, i + 1)
    }
}

proof fn lemma_card_check_duplicate(
    items: Seq<TopItemView>,
    i: int,
    agent_seen: bool,
    stages_seen: bool,
)
    requires
        0 <= i <= items.len(),
        agent_count_from(items, i) + (if agent_seen {
            1int
        } else {
            0int
        }) >= 2,
    ensures
        card_check(items, i, agent_seen, stages_seen) matches Some(e) && e is DuplicateDirective,
    decreases items.len() - i,
{
    if i < items.len() {
        match items[i] {
            TopItemView::Agent(p) => {
                if !agent_seen {
                    lemma_card_check_duplicate(items, i + 1, true, stages_seen);
                }
            },
            TopItemView::Stages(p, list) => {
                if !stages_seen {
                    lemma_card_check_duplicate(items, i + 1, agent_seen, true);
                }
            },
            _ => {
                lemma_card_check_duplicate(items, i + 1, agent_seen, stages_seen);
            },
        }
    }
}

proof fn lemma_agent_count_nonneg(items: Seq<TopItemView>, i: int)
    ensures
        agent_count_from(items, i) >= 0,
    decreases items.len() - i,
{
    if 0 <= i < items.len() {
        lemma_agent_count_nonneg(items, i + 1);
    }
}

proof fn lemma_card_check_missing_stages(items: Seq<TopItemView>, i: int, agent_seen: bool)
    requires
        0 <= i <= items.len(),
        !has_stages_from(items, i),
        agent_count_from(items, i) + (if agent_seen {
            1int
        } else {
            0int
        }) <= 1,
    ensures
        card_check(items, i, agent_seen, false) == Some(
            ErrView::MissingDirective(
                if agent_count_from(items, i) == 0 && !agent_seen {
                    DirectiveKind::Agent
                } else {
                    DirectiveKind::Stages
                },
            ),
        ),
    decreases items.len() - i,
{
    if i < items.len() {
        match items[i] {
            TopItemView::Agent(p) => {
                lemma_agent_count_nonneg(items, i + 1);
                if !agent_seen {
                    lemma_card_check_missing_stages(items, i + 1, true);
                }
            },
            TopItemView::Stages(p, list) => {},
            _ => {
                lemma_card_check_missing_stages(items, i + 1, agent_seen);
            },
        }
    }
}

/// An input without a `pipeline {` marker anywhere is rejected as not
/// declarative, before the grammar even runs.
pub proof fn lemma_not_declarative_rejected(s: Seq<char>)
    requires
        !is_declarative_spec(s),
    ensures
        parse_spec(s) == Err::<DocView, ErrView>(ErrView::NotDeclarative),
{
}

/// An input that matches the grammar with two or more `agent` directives
/// at top level is rejected with a duplicate-directive error. (When a
/// directive other than `agent` is also duplicated, the error names
/// whichever second occurrence comes first in the text.)
pub proof fn lemma_duplicate_agent_rejected(s: Seq<char>, items: Seq<TopItemView>)
    requires
        is_declarative_spec(s),
        scan_pipeline(s) == Ok::<Seq<TopItemView>, SynView>(items),
        agent_count_from(items, 0) >= 2,
    ensures
        parse_spec(s) matches Err(e) && e is DuplicateDirective,
{
    lemma_card_check_duplicate(items, 0, false, false);
}

/// An input that matches the grammar but whose `pipeline` body holds no
/// `stages` directive at all — and no duplicated `agent` — is rejected
/// with a missing-directive error: for `agent` when that is absent too,
/// else for `stages`.
pub proof fn lemma_missing_stages_rejected(s: Seq<char>, items: Seq<TopItemView>)
    requires
        is_declarative_spec(s),
        scan_pipeline(s) == Ok::<Seq<TopItemView>, SynView>(items),
        !has_stages_from(items, 0),
        agent_count_from(items, 0) <= 1,
    ensures
        parse_spec(s) == Err::<DocView, ErrView>(
            ErrView::MissingDirective(
                if agent_count_from(items, 0) == 0 {
                    DirectiveKind::Agent
                } else {
                    DirectiveKind::Stages
                },
            ),
        ),
{
    lemma_card_check_missing_stages(items, 0, false);
}

// ---------------------------------------------------------------------------
// Stage content, at every nesting depth
// ---------------------------------------------------------------------------

/// This stage and every stage below it carries executable content.
pub open spec fn stage_all_content(st: StageNodeView) -> bool
    decreases st, 0int,
{
    stage_has_content(st) && items_all_content(st.items, 0)
}

/// Every stage below the body entries from `i` on carries content.
pub open spec fn items_all_content(items: Seq<StageItemView>, i: int) -> bool
    decreases items, items.len() - i,
{
    if i < 0 || i >= items.len() {
        true
    } else {
        (match items[i] {
            StageItemView::Parallel(list) => list_all_content(list, 0),
            StageItemView::Stages(list) => list_all_content(list, 0),
            _ => true,
        }) && items_all_content(items, i + 1)
    }
}

/// Every stage in the list from `i` on carries content, recursively.
pub open spec fn list_all_content(list: Seq<StageNodeView>, i: int) -> bool
    decreases list, list.len() - i,
{
    if i < 0 || i >= list.len() {
        true
    } else {
        stage_all_content(list[i]) && list_all_content(list, i + 1)
    }
}

/// Every stage under the top-level directives from `i` on carries content.
pub open spec fn top_all_content(items: Seq<TopItemView>, i: int) -> bool
    decreases items.len() - i,
{
    if i < 0 || i >= items.len() {
        true
    } else {
        (match items[i] {
            TopItemView::Stages(p, list) => list_all_content(list, 0),
            _ => true,
        }) && top_all_content(items, i + 1)
    }
}

proof fn lemma_stage_cv_none_iff(st: StageNodeView)
    ensures
        (stage_content_violation(st) is None) <==> stage_all_content(st),
    decreases st, 0int,
{
    lemma_items_cv_none_iff(st.items, 0);
}

proof fn lemma_items_cv_none_iff(items: Seq<StageItemView>, i: int)
    ensures
        (items_content_violation(items, i) is None) <==> items_all_content(items, i),
    decreases items, items.len() - i,
{
    if 0 <= i < items.len() {
        match items[i] {
            StageItemView::Parallel(list) => {
                lemma_list_cv_none_iff(list, 0);
            },
            StageItemView::Stages(list) => {
                lemma_list_cv_none_iff(list, 0);
            },
            _ => {},
        }
        lemma_items_cv_none_iff(items, i + 1);
    }
}

proof fn lemma_list_cv_none_iff(list: Seq<StageNodeView>, i: int)
    ensures
        (list_content_violation(list, i) is None) <==> list_all_content(list, i),
    decreases list, list.len() - i,
{
    if 0 <= i < list.len() {
        lemma_stage_cv_none_iff(list[i]);
        lemma_list_cv_none_iff(list, i + 1);
    }
}

proof fn lemma_top_cv_none_iff(items: Seq<TopItemView>, i: int)
    ensures
        (top_content_violation(items, i) is None) <==> top_all_content(items, i),
    decreases items.len() - i,
{
    if 0 <= i < items.len() {
        match items[i] {
            TopItemView::Stages(p, list) => {
                lemma_list_cv_none_iff(list, 0);
            },
            _ => {},
        }
        lemma_top_cv_none_iff(items, i + 1);
    }
}

/// An input that matches the grammar with valid top-level cardinality but
/// with some stage — at any nesting depth — lacking steps, parallel
/// branches and nested stages alike, is rejected with `EmptyStage`.
pub proof fn lemma_empty_stage_rejected(s: Seq<char>, items: Seq<TopItemView>)
    requires
        is_declarative_spec(s),
        scan_pipeline(s) == Ok::<Seq<TopItemView>, SynView>(items),
        card_check(items, 0, false, false) is None,
        !top_all_content(items, 0),
    ensures
        parse_spec(s) matches Err(e) && e is EmptyStage,
{
    lemma_top_cv_none_iff(items, 0);
}

// ---------------------------------------------------------------------------
// A single stage with a single step
// ---------------------------------------------------------------------------

proof fn lemma_build_stage_acc_other(items: Seq<StageItemView>, i: int, acc: StageView)
    requires
        forall|j: int| i <= j < items.len() ==> items[j] is Other,
    ensures
        build_stage_acc(items, i, acc) == acc,
    decreases items, items.len() - i,
{
    if 0 <= i < items.len() {
        lemma_build_stage_acc_other(items, i + 1, acc);
    }
}

proof fn lemma_build_stage_acc_one_steps(
    items: Seq<StageItemView>,
    i: int,
    acc: StageView,
    sk: int,
    texts: Seq<Seq<char>>,
)
    requires
        0 <= i <= sk < items.len(),
        items[sk] == StageItemView::Steps(texts),
        forall|j: int| i <= j < items.len() && j != sk ==> items[j] is Other,
    ensures
        build_stage_acc(items, i, acc).steps == texts,
    decreases items.len() - i,
{
    if i == sk {
        let acc2 = StageView {
            name: acc.name,
            steps: texts,
            is_parallel: acc.is_parallel,
            sub_stages: acc.sub_stages,
        };
        assert(forall|j: int| i + 1 <= j < items.len() ==> items[j] is Other);
        lemma_build_stage_acc_other(items, i + 1, acc2);
    } else {
        lemma_build_stage_acc_one_steps(items, i + 1, acc, sk, texts);
    }
}

proof fn lemma_build_doc_acc_no_stages(items: Seq<TopItemView>, i: int, acc: DocView)
    requires
        forall|j: int| i <= j < items.len() ==> !(items[j] is Stages),
    ensures
        build_doc_acc(items, i, acc).stages == acc.stages,
    decreases items.len() - i,
{
    if 0 <= i < items.len() {
        match items[i] {
            TopItemView::Post(entries) => {
                lemma_build_doc_acc_no_stages(
                    items,
                    i + 1,
                    DocView { name: acc.name, stages: acc.stages, post: entries },
                );
            },
            _ => {
                lemma_build_doc_acc_no_stages(items, i + 1, acc);
            },
        }
    }
}

proof fn lemma_build_doc_acc_one_stages(
    items: Seq<TopItemView>,
    i: int,
    acc: DocView,
    k: int,
    list: Seq<StageNodeView>,
)
    requires
        0 <= i <= k < items.len(),
        items[k] matches TopItemView::Stages(p, l) && l == list,
        forall|j: int| i <= j < items.len() && j != k ==> !(items[j] is Stages),
    ensures
        build_doc_acc(items, i, acc).stages == build_stage_list(list),
    decreases items.len() - i,
{
    if i == k {
        match items[i] {
            TopItemView::Stages(p, l) => {
                let acc2 = DocView { name: acc.name, stages: build_stage_list(l), post: acc.post };
                assert(forall|j: int| i + 1 <= j < items.len() ==> !(items[j] is Stages));
                lemma_build_doc_acc_no_stages(items, i + 1, acc2);
            },
            _ => {},
        }
    } else {
        match items[i] {
            TopItemView::Post(entries) => {
                lemma_build_doc_acc_one_stages(
                    items,
                    i + 1,
                    DocView { name: acc.name, stages: acc.stages, post: entries },
                    k,
                    list,
                );
            },
            _ => {
                lemma_build_doc_acc_one_stages(items, i + 1, acc, k, list);
            },
        }
    }
}

/// A valid single-stage pipeline with one step: when the one `stages`
/// directive holds one stage whose body is a single one-step `steps`
/// block beside directives the builder ignores, and the cardinality check
/// passes, parsing yields exactly one top-level stage whose steps list
/// has length one — and exactly that step's text.
pub proof fn lemma_single_stage_single_step(
    s: Seq<char>,
    items: Seq<TopItemView>,
    k: int,
    p: int,
    st: StageNodeView,
    sk: int,
    texts: Seq<Seq<char>>,
)
    requires
        is_declarative_spec(s),
        scan_pipeline(s) == Ok::<Seq<TopItemView>, SynView>(items),
        card_check(items, 0, false, false) is None,
        0 <= k < items.len(),
        items[k] == TopItemView::Stages(p, seq![st]),
        forall|j: int| 0 <= j < items.len() && j != k ==> !(items[j] is Stages),
        0 <= sk < st.items.len(),
        st.items[sk] == StageItemView::Steps(texts),
        texts.len() == 1,
        forall|j: int| 0 <= j < st.items.len() && j != sk ==> st.items[j] is Other,
    ensures
        parse_spec(s) matches Ok(doc) && doc.stages.len() == 1 && doc.stages[0].steps == texts
            && doc.stages[0].steps.len() == 1,
{
    // The stage carries content, and nothing below it can lack content.
    assert(is_content_item(st.items[sk]));
    assert(stage_has_content(st));
    assert(forall|j: int| 0 <= j < st.items.len() ==> !(st.items[j] is Parallel) && !(st.items[j]
        is Stages));
    lemma_items_all_other_content(st.items, 0);
    assert(stage_all_content(st));
    assert(list_all_content(seq![st], 1));
    assert(list_all_content(seq![st], 0));
    lemma_top_all_content_one(items, 0, k, seq![st]);
    lemma_top_cv_none_iff(items, 0);
    // The built document: one stage, with exactly the one steps list.
    lemma_build_doc_acc_one_stages(items, 0, crate::model::empty_doc_view(), k, seq![st]);
    let blank = StageView {
        name: crate::lit::lit_payload(st.name),
        steps: Seq::empty(),
        is_parallel: false,
        sub_stages: Seq::empty(),
    };
    lemma_build_stage_acc_one_steps(st.items, 0, blank, sk, texts);
    assert(build_stage_list(seq![st])[0] == build_stage(st));
    assert(build_stage_list(seq![st]).len() == 1);
}

proof fn lemma_items_all_other_content(items: Seq<StageItemView>, i: int)
    requires
        forall|j: int| i <= j < items.len() ==> !(items[j] is Parallel) && !(items[j] is Stages),
    ensures
        items_all_content(items, i),
    decreases items.len() - i,
{
    if 0 <= i < items.len() {
        lemma_items_all_other_content(items, i + 1);
    }
}

proof fn lemma_top_all_content_one(
    items: Seq<TopItemView>,
    i: int,
    k: int,
    list: Seq<StageNodeView>,
)
    requires
        0 <= k < items.len(),
        items[k] matches TopItemView::Stages(p, l) && l == list,
        forall|j: int| 0 <= j < items.len() && j != k ==> !(items[j] is Stages),
        list_all_content(list, 0),
        0 <= i <= items.len(),
    ensures
        top_all_content(items, i),
    decreases items.len() - i,
{
    if i < items.len() {
        lemma_top_all_content_one(items, i + 1, k, list);
    }
}

// ---------------------------------------------------------------------------
// Literal decoding is quote-style agnostic
// ---------------------------------------------------------------------------

/// The surface text of a literal: its payload between the delimiters of
/// its quoting style.
pub open spec fn render_lit(l: LitView) -> Seq<char> {
    match l {
        LitView::Single(p) => seq!['\''] + p + seq!['\''],
        LitView::Double(p) => seq!['"'] + p + seq!['"'],
        LitView::TripleSingle(p) => seq!['\'', '\'', '\''] + p + seq!['\'', '\'', '\''],
        LitView::TripleDouble(p) => seq!['"', '"', '"'] + p + seq!['"', '"', '"'],
    }
}

/// The payload holds no quote character of its own kind.
pub open spec fn payload_clean(l: LitView) -> bool {
    match l {
        LitView::Single(p) => forall|i: int| 0 <= i < p.len() ==> p[i] != '\'',
        LitView::TripleSingle(p) => forall|i: int| 0 <= i < p.len() ==> p[i] != '\'',
        LitView::Double(p) => forall|i: int| 0 <= i < p.len() ==> p[i] != '"',
        LitView::TripleDouble(p) => forall|i: int| 0 <= i < p.len() ==> p[i] != '"',
    }
}

proof fn lemma_find_first(s: Seq<char>, pos: int, q: int, delim: Seq<char>)
    requires
        0 <= pos <= q,
        delim.len() >= 1,
        matches_at(s, q, delim),
        forall|t: int| pos <= t < q ==> !matches_at(s, t, delim),
    ensures
        find_at(s, pos, delim) == Some(q),
    decreases q - pos,
{
    if pos < q {
        lemma_find_first(s, pos + 1, q, delim);
    }
}

proof fn lemma_flank_index(q: Seq<char>, pp: Seq<char>)
    ensures
        (q + pp + q).len() == pp.len() + 2 * q.len(),
        forall|i: int| 0 <= i < q.len() ==> #[trigger] (q + pp + q)[i] == q[i],
        forall|i: int| 0 <= i < pp.len() ==> #[trigger] (q + pp + q)[q.len() + i] == pp[i],
        forall|i: int|
            0 <= i < q.len() ==> #[trigger] (q + pp + q)[q.len() + pp.len() + i] == q[i],
{
    assert forall|i: int| 0 <= i < q.len() implies #[trigger] (q + pp + q)[i] == q[i] by {
        assert((q + pp)[i] == q[i]);
    }
    assert forall|i: int| 0 <= i < pp.len() implies #[trigger] (q + pp + q)[q.len() + i]
        == pp[i] by {
        assert((q + pp)[q.len() + i] == pp[i]);
    }
    assert forall|i: int| 0 <= i < q.len() implies #[trigger] (q + pp + q)[q.len() + pp.len() + i]
        == q[i] by {}
}

/// Literal decoding is quote-style agnostic: the same non-empty payload,
/// rendered in any of the four quoting styles and scanned back, yields a
/// literal of that style carrying exactly that payload — so all four
/// styles decode alike.
pub proof fn lemma_literal_roundtrip(s: Seq<char>, pos: int, lit: LitView)
    requires
        0 <= pos,
        matches_at(s, pos, render_lit(lit)),
        payload_clean(lit),
        lit_payload(lit).len() > 0,
    ensures
        scan_lit(s, pos) == Ok::<(LitView, int), SynView>((lit, pos + render_lit(lit).len())),
{
    let r = render_lit(lit);
    let n = lit_payload(lit).len() as int;
    assert forall|t: int| 0 <= t < r.len() implies s[pos + t] == r[t] by {
        assert(s.subrange(pos, pos + r.len() as int)[t] == r[t]);
    }
    match lit {
        LitView::Single(pp) => {
            lemma_flank_index(seq!['\''], pp);
            assert(s[pos] == '\'') by {
                assert(r[0] == '\'');
                assert(s.subrange(pos, pos + r.len() as int)[0] == r[0]);
            }
            assert(s[pos + 1] == pp[0]) by {
                assert(r[1] == pp[0]);
                assert(s.subrange(pos, pos + r.len() as int)[1] == r[1]);
            }
            assert(!matches_at(s, pos, seq!['\'', '\'', '\''])) by {
                if matches_at(s, pos, seq!['\'', '\'', '\'']) {
                    assert(s.subrange(pos, pos + 3)[1] == '\'');
                }
            }
            assert(!matches_at(s, pos, seq!['"', '"', '"'])) by {
                if matches_at(s, pos, seq!['"', '"', '"']) {
                    assert(s.subrange(pos, pos + 3)[0] == '"');
                }
            }
            assert forall|t: int| pos + 1 <= t < pos + 1 + n implies !matches_at(
                s,
                t,
                seq!['\''],
            ) by {
                if matches_at(s, t, seq!['\'']) {
                    assert(s.subrange(t, t + 1)[0] == '\'');
                    assert(s[t] == r[t - pos]);
                }
            }
            assert(matches_at(s, pos + 1 + n, seq!['\''])) by {
                assert(s[pos + 1 + n] == r[1 + n]);
                assert(s.subrange(pos + 1 + n, pos + 2 + n) =~= seq!['\'']);
            }
            lemma_find_first(s, pos + 1, pos + 1 + n, seq!['\'']);
            assert forall|t2: int| 0 <= t2 < n implies s.subrange(pos + 1, pos + 1 + n)[t2]
                == pp[t2] by {
                assert(r[1 + t2] == pp[t2]);
                assert(s.subrange(pos, pos + r.len() as int)[1 + t2] == r[1 + t2]);
            }
            assert(s.subrange(pos + 1, pos + 1 + n) =~= pp);
        },
        LitView::Double(pp) => {
            lemma_flank_index(seq!['"'], pp);
            assert(s[pos] == '"') by {
                assert(r[0] == '"');
                assert(s.subrange(pos, pos + r.len() as int)[0] == r[0]);
            }
            assert(s[pos + 1] == pp[0]) by {
                assert(r[1] == pp[0]);
                assert(s.subrange(pos, pos + r.len() as int)[1] == r[1]);
            }
            assert(!matches_at(s, pos, seq!['\'', '\'', '\''])) by {
                if matches_at(s, pos, seq!['\'', '\'', '\'']) {
                    assert(s.subrange(pos, pos + 3)[0] == '\'');
                }
            }
            assert(!matches_at(s, pos, seq!['"', '"', '"'])) by {
                if matches_at(s, pos, seq!['"', '"', '"']) {
                    assert(s.subrange(pos, pos + 3)[1] == '"');
                }
            }
            assert forall|t: int| pos + 1 <= t < pos + 1 + n implies !matches_at(
                s,
                t,
                seq!['"'],
            ) by {
                if matches_at(s, t, seq!['"']) {
                    assert(s.subrange(t, t + 1)[0] == '"');
                    assert(s[t] == r[t - pos]);
                }
            }
            assert(matches_at(s, pos + 1 + n, seq!['"'])) by {
                assert(s[pos + 1 + n] == r[1 + n]);
                assert(s.subrange(pos + 1 + n, pos + 2 + n) =~= seq!['"']);
            }
            lemma_find_first(s, pos + 1, pos + 1 + n, seq!['"']);
            assert forall|t2: int| 0 <= t2 < n implies s.subrange(pos + 1, pos + 1 + n)[t2]
                == pp[t2] by {
                assert(r[1 + t2] == pp[t2]);
                assert(s.subrange(pos, pos + r.len() as int)[1 + t2] == r[1 + t2]);
            }
            assert(s.subrange(pos + 1, pos + 1 + n) =~= pp);
        },
        LitView::TripleSingle(pp) => {
            lemma_flank_index(seq!['\'', '\'', '\''], pp);
            assert(matches_at(s, pos, seq!['\'', '\'', '\''])) by {
                assert(s.subrange(pos, pos + 3) =~= seq!['\'', '\'', '\'']);
            }
            assert forall|t: int| pos + 3 <= t < pos + 3 + n implies !matches_at(
                s,
                t,
                seq!['\'', '\'', '\''],
            ) by {
                if matches_at(s, t, seq!['\'', '\'', '\'']) {
                    assert(s.subrange(t, t + 3)[0] == '\'');
                    assert(s[t] == r[t - pos]);
                }
            }
            assert(matches_at(s, pos + 3 + n, seq!['\'', '\'', '\''])) by {
                assert(s[pos + 3 + n] == r[3 + n]);
                assert(s[pos + 4 + n] == r[4 + n]);
                assert(s[pos + 5 + n] == r[5 + n]);
                assert(s.subrange(pos + 3 + n, pos + 6 + n) =~= seq!['\'', '\'', '\'']);
            }
            lemma_find_first(s, pos + 3, pos + 3 + n, seq!['\'', '\'', '\'']);
            assert forall|t2: int| 0 <= t2 < n implies s.subrange(pos + 3, pos + 3 + n)[t2]
                == pp[t2] by {
                assert(r[3 + t2] == pp[t2]);
                assert(s.subrange(pos, pos + r.len() as int)[3 + t2] == r[3 + t2]);
            }
            assert(s.subrange(pos + 3, pos + 3 + n) =~= pp);
        },
        LitView::TripleDouble(pp) => {
            lemma_flank_index(seq!['"', '"', '"'], pp);
            assert(!matches_at(s, pos, seq!['\'', '\'', '\''])) by {
                if matches_at(s, pos, seq!['\'', '\'', '\'']) {
                    assert(s.subrange(pos, pos + 3)[0] == '\'');
                    assert(s[pos] == r[0]);
                }
            }
            assert(matches_at(s, pos, seq!['"', '"', '"'])) by {
                assert(s.subrange(pos, pos + 3) =~= seq!['"', '"', '"']);
            }
            assert forall|t: int| pos + 3 <= t < pos + 3 + n implies !matches_at(
                s,
                t,
                seq!['"', '"', '"'],
            ) by {
                if matches_at(s, t, seq!['"', '"', '"']) {
                    assert(s.subrange(t, t + 3)[0] == '"');
                    assert(s[t] == r[t - pos]);
                }
            }
            assert(matches_at(s, pos + 3 + n, seq!['"', '"', '"'])) by {
                assert(s[pos + 3 + n] == r[3 + n]);
                assert(s[pos + 4 + n] == r[4 + n]);
                assert(s[pos + 5 + n] == r[5 + n]);
                assert(s.subrange(pos + 3 + n, pos + 6 + n) =~= seq!['"', '"', '"']);
            }
            lemma_find_first(s, pos + 3, pos + 3 + n, seq!['"', '"', '"']);
            assert forall|t2: int| 0 <= t2 < n implies s.subrange(pos + 3, pos + 3 + n)[t2]
                == pp[t2] by {
                assert(r[3 + t2] == pp[t2]);
                assert(s.subrange(pos, pos + r.len() as int)[3 + t2] == r[3 + t2]);
            }
            assert(s.subrange(pos + 3, pos + 3 + n) =~= pp);
        },
    }
}

} // verus!
