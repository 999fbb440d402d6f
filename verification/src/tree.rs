//! The concrete parse tree.
//!
//! The grammar produces an ordered tree of typed nodes over the input text:
//! top-level directives, stage blocks with their bodies, and the raw text of
//! steps. Node kinds form a closed set; directives the tool does not
//! interpret are still recognized syntactically and kept as `Other`. Each
//! node that diagnostics may point at carries the offset of its first
//! character in the input.

use vstd::prelude::*;
use crate::lit::{StringLit, LitView};
use crate::model::PostConfig;

verus! {

broadcast use vstd::std_specs::vec::axiom_vec_decreases_to_view, vstd::seq::axiom_seq_index_decreases;

/// One entry of a `pipeline` body.
#[derive(Debug, PartialEq, Eq)]
pub enum TopItem {
    /// An `agent` directive; `pos` is the offset of its keyword.
    Agent { pos: usize },
    /// A `stages` directive with its ordered stage blocks.
    Stages { pos: usize, stages: Vec<StageNode> },
    /// A `post` directive with its condition blocks.
    Post { entries: Vec<PostConfig> },
    /// Any other directive (environment, options, triggers, ...), accepted
    /// syntactically and not interpreted.
    Other,
}

/// A `stage` block: its offset, its name literal and its body entries.
#[derive(Debug, PartialEq, Eq)]
pub struct StageNode {
    pub pos: usize,
    pub name: StringLit,
    pub items: Vec<StageItem>,
}

/// One entry of a stage body.
#[derive(Debug, PartialEq, Eq)]
pub enum StageItem {
    /// A `steps` block: the verbatim text of each step, in source order.
    Steps { steps: Vec<String> },
    /// A `parallel` block: independent branch stages, in source order.
    Parallel { stages: Vec<StageNode> },
    /// A nested `stages` block: sequential sub-stages, in source order.
    Stages { stages: Vec<StageNode> },
    /// Any other sub-directive (agent, environment, options, ...).
    Other,
}

/// Mathematical model of a top-level entry.
pub enum TopItemView {
    Agent(int),
    Stages(int, Seq<StageNodeView>),
    Post(Seq<crate::model::PostConfigView>),
    Other,
}

/// Mathematical model of a stage block.
pub struct StageNodeView {
    pub pos: int,
    pub name: LitView,
    pub items: Seq<StageItemView>,
}

/// Mathematical model of a stage-body entry.
pub enum StageItemView {
    Steps(Seq<Seq<char>>),
    Parallel(Seq<StageNodeView>),
    Stages(Seq<StageNodeView>),
    Other,
}

pub open spec fn stage_node_view(n: StageNode) -> StageNodeView
    decreases n,
{
    StageNodeView {
        pos: n.pos as int,
        name: n.name@,
        items: Seq::new(
            n.items@.len(),
            |i: int|
                if 0 <= i < n.items@.len() {
                    stage_item_view(n.items@[i])
                } else {
                    StageItemView::Other
                },
        ),
    }
}

pub open spec fn stage_item_view(it: StageItem) -> StageItemView
    decreases it,
{
    match it {
        StageItem::Steps { steps } => StageItemView::Steps(steps.deep_view()),
        StageItem::Parallel { stages } => StageItemView::Parallel(stage_nodes_view(stages)),
        StageItem::Stages { stages } => StageItemView::Stages(stage_nodes_view(stages)),
        StageItem::Other => StageItemView::Other,
    }
}

pub open spec fn stage_nodes_view(v: Vec<StageNode>) -> Seq<StageNodeView>
    decreases v,
{
    Seq::new(
        v@.len(),
        |i: int|
            if 0 <= i < v@.len() {
                stage_node_view(v@[i])
            } else {
                StageNodeView { pos: 0, name: LitView::Single(Seq::empty()), items: Seq::empty() }
            },
    )
}

pub open spec fn stage_items_view(v: Vec<StageItem>) -> Seq<StageItemView>
    decreases v,
{
    Seq::new(
        v@.len(),
        |i: int| if 0 <= i < v@.len() { stage_item_view(v@[i]) } else { StageItemView::Other },
    )
}

pub open spec fn top_item_view(t: TopItem) -> TopItemView {
    match t {
        TopItem::Agent { pos } => TopItemView::Agent(pos as int),
        TopItem::Stages { pos, stages } => TopItemView::Stages(pos as int, stage_nodes_view(stages)),
        TopItem::Post { entries } => TopItemView::Post(entries.deep_view()),
        TopItem::Other => TopItemView::Other,
    }
}

pub open spec fn top_items_view(v: Vec<TopItem>) -> Seq<TopItemView> {
    Seq::new(
        v@.len(),
        |i: int| if 0 <= i < v@.len() { top_item_view(v@[i]) } else { TopItemView::Other },
    )
}

impl View for StageNode {
    type V = StageNodeView;

    open spec fn view(&self) -> StageNodeView {
        stage_node_view(*self)
    }
}

impl View for StageItem {
    type V = StageItemView;

    open spec fn view(&self) -> StageItemView {
        stage_item_view(*self)
    }
}

impl View for TopItem {
    type V = TopItemView;

    open spec fn view(&self) -> TopItemView {
        top_item_view(*self)
    }
}

/// Appending to a stage list extends its model by the new node's model.
pub proof fn lemma_stage_nodes_view_push(v: Vec<StageNode>, pushed: Vec<StageNode>, n: StageNode)
    requires
        pushed@ == v@.push(n),
    ensures
        stage_nodes_view(pushed) == stage_nodes_view(v).push(stage_node_view(n)),
{
    assert(stage_nodes_view(pushed) =~= stage_nodes_view(v).push(stage_node_view(n)));
}

/// Appending to a stage body extends its model by the new entry's model.
pub proof fn lemma_stage_items_view_push(v: Vec<StageItem>, pushed: Vec<StageItem>, it: StageItem)
    requires
        pushed@ == v@.push(it),
    ensures
        stage_items_view(pushed) == stage_items_view(v).push(stage_item_view(it)),
{
    assert(stage_items_view(pushed) =~= stage_items_view(v).push(stage_item_view(it)));
}

/// Appending to the top-level list extends its model by the new item's model.
pub proof fn lemma_top_items_view_push(v: Vec<TopItem>, pushed: Vec<TopItem>, t: TopItem)
    requires
        pushed@ == v@.push(t),
    ensures
        top_items_view(pushed) == top_items_view(v).push(top_item_view(t)),
{
    assert(top_items_view(pushed) =~= top_items_view(v).push(top_item_view(t)));
}

} // verus!
