//! The stage tree builder.
//!
//! Converts the concrete parse tree into the domain model, one pass over
//! each stage body in source order: a `steps` block fills the stage's
//! steps, a `parallel` block marks the stage parallel and appends its
//! branches to the sub-stages, a nested `stages` block replaces the
//! sub-stages, and any other directive leaves the stage untouched. A later
//! `steps` or `stages` entry overwrites an earlier one, as a later
//! assignment would; `parallel` branches accumulate.

use vstd::prelude::*;
use crate::lit::lit_payload;
use crate::model::{
    empty_doc_view, empty_stage_view, jenkins_stages_view, lemma_jenkins_stages_view_push,
    DocView, JenkinsStage, PostConfig, PostConfigView, StageView,
};
use crate::tree::{
    stage_nodes_view, top_items_view, StageItem, StageItemView, StageNode, StageNodeView,
    TopItem, TopItemView,
};

verus! {

broadcast use vstd::std_specs::vec::axiom_vec_decreases_to_view, vstd::seq::axiom_seq_index_decreases;

/// Fold the entries of a stage body from `i` into the stage model `acc`.
pub open spec fn build_stage_acc(items: Seq<StageItemView>, i: int, acc: StageView) -> StageView
    decreases items, items.len() - i,
{
    if i < 0 || i >= items.len() {
        acc
    } else {
        let acc2 = match items[i] {
            StageItemView::Steps(texts) => StageView {
                name: acc.name,
                steps: texts,
                is_parallel: acc.is_parallel,
                sub_stages: acc.sub_stages,
            },
            StageItemView::Parallel(list) => StageView {
                name: acc.name,
                steps: acc.steps,
                is_parallel: true,
                sub_stages: acc.sub_stages + build_stage_list(list),
            },
            StageItemView::Stages(list) => StageView {
                name: acc.name,
                steps: acc.steps,
                is_parallel: acc.is_parallel,
                sub_stages: build_stage_list(list),
            },
            StageItemView::Other => acc,
        };
        build_stage_acc(items, i + 1, acc2)
    }
}

/// The domain model of one concrete stage node: its decoded name, then its
/// body folded over a blank stage.
pub open spec fn build_stage(st: StageNodeView) -> StageView
    decreases st, 0int,
{
    build_stage_acc(
        st.items,
        0,
        StageView {
            name: lit_payload(st.name),
            steps: Seq::empty(),
            is_parallel: false,
            sub_stages: Seq::empty(),
        },
    )
}

/// The domain models of a list of concrete stage nodes, in order.
pub open spec fn build_stage_list(list: Seq<StageNodeView>) -> Seq<StageView>
    decreases list, 1int,
{
    Seq::new(
        list.len(),
        |i: int| if 0 <= i < list.len() { build_stage(list[i]) } else { empty_stage_view() },
    )
}

/// Fold the top-level directives from `i` into the document model `acc`:
/// a `stages` directive fills the document's stages, a `post` directive its
/// post entries, everything else is left as it is.
pub open spec fn build_doc_acc(items: Seq<TopItemView>, i: int, acc: DocView) -> DocView
    decreases items.len() - i,
{
    if i < 0 || i >= items.len() {
        acc
    } else {
        let acc2 = match items[i] {
            TopItemView::Stages(p, list) => DocView {
                name: acc.name,
                stages: build_stage_list(list),
                post: acc.post,
            },
            TopItemView::Post(entries) => DocView {
                name: acc.name,
                stages: acc.stages,
                post: entries,
            },
            _ => acc,
        };
        build_doc_acc(items, i + 1, acc2)
    }
}

/// The domain model of a whole parse: the top-level directives folded over
/// an empty document.
pub open spec fn build_doc(items: Seq<TopItemView>) -> DocView {
    build_doc_acc(items, 0, empty_doc_view())
}

/// Folding the top-level directives never changes the document's name.
pub proof fn lemma_build_doc_acc_name(items: Seq<TopItemView>, i: int, acc: DocView)
    ensures
        build_doc_acc(items, i, acc).name == acc.name,
    decreases items.len() - i,
{
    if 0 <= i < items.len() {
        match items[i] {
            TopItemView::Stages(p, list) => {
                lemma_build_doc_acc_name(
                    items,
                    i + 1,
                    DocView { name: acc.name, stages: build_stage_list(list), post: acc.post },
                );
            },
            TopItemView::Post(entries) => {
                lemma_build_doc_acc_name(
                    items,
                    i + 1,
                    DocView { name: acc.name, stages: acc.stages, post: entries },
                );
            },
            _ => {
                lemma_build_doc_acc_name(items, i + 1, acc);
            },
        }
    }
}

/// Clone a vector of step texts, keeping its model.
fn clone_strings(v: &Vec<String>) -> (r: Vec<String>)
    ensures
        r.deep_view() == v.deep_view(),
{
    let r = v.clone();
    proof {
        assert(r.deep_view() =~= v.deep_view());
    }
    r
}

/// Executable builder for one stage node.
pub fn build_stage_x(node: &StageNode) -> (st: JenkinsStage)
    ensures
        st@ == build_stage(node@),
    decreases *node, 0int,
{
    let ghost nodev = node@;
    let mut st = JenkinsStage::default();
    st.name = node.name.decode().clone();
    proof {
        assert(st@.steps =~= Seq::<Seq<char>>::empty());
        assert(st@.sub_stages =~= Seq::<StageView>::empty());
    }
    let mut j: usize = 0;
    while j < node.items.len()
        invariant
            0 <= j <= node.items.len(),
            nodev == node@,
            nodev.items.len() == node.items.len(),
            build_stage(nodev) == build_stage_acc(nodev.items, j as int, st@),
        decreases node.items.len() - j,
    {
        let ghost accv = st@;
        proof {
            assert(nodev.items[j as int] == crate::tree::stage_item_view(node.items@[j as int]));
        }
        match &node.items[j] {
            StageItem::Steps { steps } => {
                st.steps = clone_strings(steps);
                proof {
                    assert(st@.sub_stages =~= accv.sub_stages);
                    assert(st@ == StageView {
                        name: accv.name,
                        steps: steps.deep_view(),
                        is_parallel: accv.is_parallel,
                        sub_stages: accv.sub_stages,
                    });
                }
            },
            StageItem::Parallel { stages } => {
                st.is_parallel = true;
                proof {
                    assert(decreases_to!(*node => *stages));
                }
                let mut branches = build_stage_vec_x(stages);
                let ghost branchesv = jenkins_stages_view(branches);
                let ghost oldsub = st.sub_stages;
                st.sub_stages.append(&mut branches);
                proof {
                    assert(jenkins_stages_view(st.sub_stages) =~= jenkins_stages_view(oldsub)
                        + branchesv);
                    assert(st@.sub_stages =~= jenkins_stages_view(st.sub_stages));
                    assert(st@.steps =~= accv.steps);
                    assert(jenkins_stages_view(oldsub) =~= accv.sub_stages);
                    assert(st@ == StageView {
                        name: accv.name,
                        steps: accv.steps,
                        is_parallel: true,
                        sub_stages: accv.sub_stages + build_stage_list(
                            stage_nodes_view(*stages),
                        ),
                    });
                }
            },
            StageItem::Stages { stages } => {
                proof {
                    assert(decreases_to!(*node => *stages));
                }
                let subs = build_stage_vec_x(stages);
                st.sub_stages = subs;
                proof {
                    assert(st@.sub_stages =~= jenkins_stages_view(st.sub_stages));
                    assert(st@.steps =~= accv.steps);
                    assert(st@ == StageView {
                        name: accv.name,
                        steps: accv.steps,
                        is_parallel: accv.is_parallel,
                        sub_stages: build_stage_list(stage_nodes_view(*stages)),
                    });
                }
            },
            StageItem::Other => {},
        }
        j = j + 1;
    }
    st
}

/// Executable builder for a list of stage nodes.
pub fn build_stage_vec_x(list: &Vec<StageNode>) -> (r: Vec<JenkinsStage>)
    ensures
        jenkins_stages_view(r) == build_stage_list(stage_nodes_view(*list)),
    decreases *list, 1int,
{
    let ghost lv = stage_nodes_view(*list);
    let mut r: Vec<JenkinsStage> = Vec::new();
    proof {
        assert(jenkins_stages_view(r) =~= build_stage_list(lv).subrange(0, 0));
    }
    let mut k: usize = 0;
    while k < list.len()
        invariant
            0 <= k <= list.len(),
            lv == stage_nodes_view(*list),
            lv.len() == list.len(),
            jenkins_stages_view(r) =~= build_stage_list(lv).subrange(0, k as int),
        decreases list.len() - k,
    {
        proof {
            assert(decreases_to!(*list => list@[k as int]));
        }
        let built = build_stage_x(&list[k]);
        let ghost oldr = r;
        let ghost bg = built;
        r.push(built);
        proof {
            lemma_jenkins_stages_view_push(oldr, r, bg);
            assert(build_stage_list(lv)[k as int] == build_stage(lv[k as int]));
            assert(jenkins_stages_view(r) =~= build_stage_list(lv).subrange(0, k + 1 as int));
        }
        k = k + 1;
    }
    proof {
        assert(build_stage_list(lv).subrange(0, list.len() as int) =~= build_stage_list(lv));
    }
    r
}

/// Executable builder for the document: the stages and post entries that
/// the top-level directives produce.
pub fn build_doc_x(items: &Vec<TopItem>) -> (r: (Vec<JenkinsStage>, Vec<PostConfig>))
    ensures
        jenkins_stages_view(r.0) == build_doc(top_items_view(*items)).stages,
        r.1.deep_view() == build_doc(top_items_view(*items)).post,
{
    let ghost itemsv = top_items_view(*items);
    let mut stages_out: Vec<JenkinsStage> = Vec::new();
    let mut post_out: Vec<PostConfig> = Vec::new();
    proof {
        assert(jenkins_stages_view(stages_out) =~= Seq::<StageView>::empty());
        assert(post_out.deep_view() =~= Seq::<PostConfigView>::empty());
    }
    let mut i: usize = 0;
    while i < items.len()
        invariant
            0 <= i <= items.len(),
            itemsv == top_items_view(*items),
            itemsv.len() == items.len(),
            build_doc(itemsv) == build_doc_acc(
                itemsv,
                i as int,
                DocView {
                    name: Seq::empty(),
                    stages: jenkins_stages_view(stages_out),
                    post: post_out.deep_view(),
                },
            ),
        decreases items.len() - i,
    {
        proof {
            assert(itemsv[i as int] == crate::tree::top_item_view(items@[i as int]));
        }
        match &items[i] {
            TopItem::Stages { stages, .. } => {
                stages_out = build_stage_vec_x(stages);
            },
            TopItem::Post { entries } => {
                let mut freshp: Vec<PostConfig> = Vec::new();
                proof {
                    assert(freshp.deep_view() =~= entries.deep_view().subrange(0, 0));
                }
                let mut k: usize = 0;
                while k < entries.len()
                    invariant
                        0 <= k <= entries.len(),
                        entries.deep_view().len() == entries.len(),
                        freshp.deep_view() =~= entries.deep_view().subrange(0, k as int),
                    decreases entries.len() - k,
                {
                    let entry = PostConfig {
                        key: entries[k].key.clone(),
                        value: clone_strings(&entries[k].value),
                    };
                    let ghost oldp = freshp;
                    let ghost eg = entry;
                    freshp.push(entry);
                    proof {
                        assert(freshp.deep_view() =~= oldp.deep_view().push(eg@));
                        assert(freshp.deep_view() =~= entries.deep_view().subrange(
                            0,
                            k + 1 as int,
                        ));
                    }
                    k = k + 1;
                }
                proof {
                    assert(entries.deep_view().subrange(0, entries.len() as int)
                        =~= entries.deep_view());
                }
                post_out = freshp;
            },
            _ => {},
        }
        i = i + 1;
    }
    (stages_out, post_out)
}

} // verus!
