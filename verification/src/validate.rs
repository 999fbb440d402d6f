//! The structural validator.
//!
//! Two checks the grammar alone cannot express, run in a fixed, documented
//! order over the concrete parse tree:
//!
//! 1. Top-level cardinality: the `pipeline` body must hold exactly one
//!    `agent` and exactly one `stages` directive. The body is walked left to
//!    right; the second occurrence of either directive is reported as
//!    `DuplicateDirective` at its own position, and only then an absent
//!    `agent` (first) or `stages` (second) as `MissingDirective`.
//! 2. Stage content: every stage, at every nesting depth, must hold at
//!    least one of a `steps` block, a `parallel` block or a nested `stages`
//!    block. Stages are visited in source order, a stage before its
//!    sub-stages; the first stage without content is reported as
//!    `EmptyStage` at its position.
//!
//! The cardinality check always runs first, so an input that violates both
//! rules is reported with the cardinality error.

use vstd::prelude::*;
use crate::err::{DirectiveKind, ErrView, ParseError};
use crate::tree::{
    stage_items_view, stage_nodes_view, top_items_view, StageItem, StageItemView, StageNode,
    StageNodeView, TopItem, TopItemView,
};

verus! {

broadcast use vstd::std_specs::vec::axiom_vec_decreases_to_view, vstd::seq::axiom_seq_index_decreases;

/// Walk the top-level directives from `i` with the directives already seen,
/// and return the first cardinality violation, if any.
pub open spec fn card_check(
    items: Seq<TopItemView>,
    i: int,
    agent_seen: bool,
    stages_seen: bool,
) -> Option<ErrView>
    decreases items.len() - i,
{
    if i < 0 || i >= items.len() {
        if !agent_seen {
            Some(ErrView::MissingDirective(DirectiveKind::Agent))
        } else if !stages_seen {
            Some(ErrView::MissingDirective(DirectiveKind::Stages))
        } else {
            None
        }
    } else {
        match items[i] {
            TopItemView::Agent(p) => if agent_seen {
                Some(ErrView::DuplicateDirective(p, DirectiveKind::Agent))
            } else {
                card_check(items, i + 1, true, stages_seen)
            },
            TopItemView::Stages(p, list) => if stages_seen {
                Some(ErrView::DuplicateDirective(p, DirectiveKind::Stages))
            } else {
                card_check(items, i + 1, agent_seen, true)
            },
            _ => card_check(items, i + 1, agent_seen, stages_seen),
        }
    }
}

/// A stage-body entry that counts as executable content.
pub open spec fn is_content_item(it: StageItemView) -> bool {
    it is Steps || it is Parallel || it is Stages
}

/// The stage holds at least one of steps, parallel branches or nested
/// stages.
pub open spec fn stage_has_content(st: StageNodeView) -> bool {
    exists|i: int| 0 <= i < st.items.len() && is_content_item(st.items[i])
}

/// Position of the first stage without content in a pre-order, source-order
/// walk of this stage and everything below it.
pub open spec fn stage_content_violation(st: StageNodeView) -> Option<int>
    decreases st, 0int,
{
    if !stage_has_content(st) {
        Some(st.pos)
    } else {
        items_content_violation(st.items, 0)
    }
}

/// First content violation inside the sub-stages hanging off a stage body,
/// from entry `i` on.
pub open spec fn items_content_violation(items: Seq<StageItemView>, i: int) -> Option<int>
    decreases items, items.len() - i,
{
    if i < 0 || i >= items.len() {
        None
    } else {
        match items[i] {
            StageItemView::Parallel(list) => match list_content_violation(list, 0) {
                Some(p) => Some(p),
                None => items_content_violation(items, i + 1),
            },
            StageItemView::Stages(list) => match list_content_violation(list, 0) {
                Some(p) => Some(p),
                None => items_content_violation(items, i + 1),
            },
            _ => items_content_violation(items, i + 1),
        }
    }
}

/// First content violation in a list of stages, from stage `i` on.
pub open spec fn list_content_violation(list: Seq<StageNodeView>, i: int) -> Option<int>
    decreases list, list.len() - i,
{
    if i < 0 || i >= list.len() {
        None
    } else {
        match stage_content_violation(list[i]) {
            Some(p) => Some(p),
            None => list_content_violation(list, i + 1),
        }
    }
}

/// First content violation under the top-level directives, from entry `i`
/// on.
pub open spec fn top_content_violation(items: Seq<TopItemView>, i: int) -> Option<int>
    decreases items.len() - i,
{
    if i < 0 || i >= items.len() {
        None
    } else {
        match items[i] {
            TopItemView::Stages(p, list) => match list_content_violation(list, 0) {
                Some(q) => Some(q),
                None => top_content_violation(items, i + 1),
            },
            _ => top_content_violation(items, i + 1),
        }
    }
}

/// The whole validator: the first cardinality violation if there is one,
/// else the first stage without content, else nothing.
pub open spec fn validate(items: Seq<TopItemView>) -> Option<ErrView> {
    match card_check(items, 0, false, false) {
        Some(e) => Some(e),
        None => match top_content_violation(items, 0) {
            Some(p) => Some(ErrView::EmptyStage(p)),
            None => None,
        },
    }
}

/// Executable cardinality check over the parsed top-level directives.
pub fn card_check_x(items: &Vec<TopItem>) -> (r: Option<ParseError>)
    ensures
        match r {
            Some(e) => card_check(top_items_view(*items), 0, false, false) == Some(e@),
            None => card_check(top_items_view(*items), 0, false, false) is None,
        },
{
    let ghost itemsv = top_items_view(*items);
    let mut i: usize = 0;
    let mut agent_seen: bool = false;
    let mut stages_seen: bool = false;
    while i < items.len()
        invariant
            0 <= i <= items.len(),
            itemsv == top_items_view(*items),
            itemsv.len() == items.len(),
            card_check(itemsv, 0, false, false) == card_check(
                itemsv,
                i as int,
                agent_seen,
                stages_seen,
            ),
        decreases items.len() - i,
    {
        match &items[i] {
            TopItem::Agent { pos } => {
                if agent_seen {
                    return Some(
                        ParseError::DuplicateDirective {
                            pos: *pos,
                            directive: DirectiveKind::Agent,
                        },
                    );
                }
                agent_seen = true;
            },
            TopItem::Stages { pos, .. } => {
                if stages_seen {
                    return Some(
                        ParseError::DuplicateDirective {
                            pos: *pos,
                            directive: DirectiveKind::Stages,
                        },
                    );
                }
                stages_seen = true;
            },
            _ => {},
        }
        i = i + 1;
    }
    if !agent_seen {
        return Some(ParseError::MissingDirective { directive: DirectiveKind::Agent });
    }
    if !stages_seen {
        return Some(ParseError::MissingDirective { directive: DirectiveKind::Stages });
    }
    None
}

/// Executable content check for one stage and everything below it.
pub fn stage_content_x(st: &StageNode) -> (r: Option<usize>)
    ensures
        match r {
            Some(p) => stage_content_violation(st@) == Some(p as int),
            None => stage_content_violation(st@) is None,
        },
    decreases *st,
{
    let ghost stv = st@;
    let mut found: bool = false;
    let mut i: usize = 0;
    while i < st.items.len() && !found
        invariant
            0 <= i <= st.items.len(),
            stv == st@,
            stv.items.len() == st.items.len(),
            found ==> stage_has_content(stv),
            !found ==> forall|t: int| 0 <= t < i ==> !is_content_item(stv.items[t]),
        decreases st.items.len() - i,
    {
        match &st.items[i] {
            StageItem::Other => {},
            _ => {
                proof {
                    assert(is_content_item(stv.items[i as int]));
                }
                found = true;
            },
        }
        i = i + 1;
    }
    if !found {
        return Some(st.pos);
    }
    let mut j: usize = 0;
    while j < st.items.len()
        invariant
            0 <= j <= st.items.len(),
            stv == st@,
            stage_has_content(stv),
            stv.items.len() == st.items.len(),
            items_content_violation(stv.items, 0) == items_content_violation(stv.items, j as int),
        decreases st.items.len() - j,
    {
        match &st.items[j] {
            StageItem::Parallel { stages } => {
                match stage_list_content_x(stages) {
                    Some(p) => {
                        return Some(p);
                    },
                    None => {},
                }
            },
            StageItem::Stages { stages } => {
                match stage_list_content_x(stages) {
                    Some(p) => {
                        return Some(p);
                    },
                    None => {},
                }
            },
            _ => {},
        }
        j = j + 1;
    }
    None
}

/// Executable content check for a list of stages.
pub fn stage_list_content_x(list: &Vec<StageNode>) -> (r: Option<usize>)
    ensures
        match r {
            Some(p) => list_content_violation(stage_nodes_view(*list), 0) == Some(p as int),
            None => list_content_violation(stage_nodes_view(*list), 0) is None,
        },
    decreases *list,
{
    let ghost lv = stage_nodes_view(*list);
    let mut k: usize = 0;
    while k < list.len()
        invariant
            0 <= k <= list.len(),
            lv == stage_nodes_view(*list),
            lv.len() == list.len(),
            list_content_violation(lv, 0) == list_content_violation(lv, k as int),
        decreases list.len() - k,
    {
        match stage_content_x(&list[k]) {
            Some(p) => {
                return Some(p);
            },
            None => {},
        }
        k = k + 1;
    }
    None
}

/// Executable content check over the top-level directives.
pub fn top_content_x(items: &Vec<TopItem>) -> (r: Option<usize>)
    ensures
        match r {
            Some(p) => top_content_violation(top_items_view(*items), 0) == Some(p as int),
            None => top_content_violation(top_items_view(*items), 0) is None,
        },
{
    let ghost itemsv = top_items_view(*items);
    let mut i: usize = 0;
    while i < items.len()
        invariant
            0 <= i <= items.len(),
            itemsv == top_items_view(*items),
            itemsv.len() == items.len(),
            top_content_violation(itemsv, 0) == top_content_violation(itemsv, i as int),
        decreases items.len() - i,
    {
        match &items[i] {
            TopItem::Stages { stages, .. } => {
                match stage_list_content_x(stages) {
                    Some(p) => {
                        return Some(p);
                    },
                    None => {},
                }
            },
            _ => {},
        }
        i = i + 1;
    }
    None
}

/// The executable validator: cardinality first, then stage content.
pub fn validate_x(items: &Vec<TopItem>) -> (r: Option<ParseError>)
    ensures
        match r {
            Some(e) => validate(top_items_view(*items)) == Some(e@),
            None => validate(top_items_view(*items)) is None,
        },
{
    match card_check_x(items) {
        Some(e) => Some(e),
        None => match top_content_x(items) {
            Some(p) => Some(ParseError::EmptyStage { pos: p }),
            None => None,
        },
    }
}

} // verus!
