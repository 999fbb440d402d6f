//! The domain model a successful parse produces.
//!
//! A document owns an ordered tree of stages and an ordered list of
//! post-condition entries. A stage is either a leaf that runs steps or a
//! container whose sub-stages run sequentially or as parallel branches.
//! The model is built in one pass and never mutated afterwards.

use vstd::prelude::*;

verus! {

broadcast use vstd::std_specs::vec::axiom_vec_decreases_to_view, vstd::seq::axiom_seq_index_decreases;

/// A parsed pipeline document: its top-level stages and its post entries,
/// each in declaration order.
#[derive(Debug, PartialEq, Eq)]
pub struct Jenkinsfile {
    pub name: String,
    pub stages: Vec<JenkinsStage>,
    pub post: Vec<PostConfig>,
}

/// A named unit of pipeline work.
///
/// A leaf stage carries the verbatim text of its steps; a container stage
/// carries sub-stages, which are parallel branches when `is_parallel` is
/// true and sequential nested stages otherwise.
#[derive(Debug, PartialEq, Eq)]
pub struct JenkinsStage {
    pub name: String,
    pub steps: Vec<String>,
    pub is_parallel: bool,
    pub sub_stages: Vec<JenkinsStage>,
}

/// One post-condition entry: the condition name and the verbatim text of
/// each action recorded under it, in source order.
#[derive(Debug, PartialEq, Eq, Clone)]
pub struct PostConfig {
    pub key: String,
    pub value: Vec<String>,
}

/// Mathematical model of a document.
pub struct DocView {
    pub name: Seq<char>,
    pub stages: Seq<StageView>,
    pub post: Seq<PostConfigView>,
}

/// Mathematical model of a stage.
pub struct StageView {
    pub name: Seq<char>,
    pub steps: Seq<Seq<char>>,
    pub is_parallel: bool,
    pub sub_stages: Seq<StageView>,
}

/// Mathematical model of a post entry.
pub struct PostConfigView {
    pub key: Seq<char>,
    pub value: Seq<Seq<char>>,
}

/// A stage model with no name, no steps and no sub-stages.
pub open spec fn empty_stage_view() -> StageView {
    StageView {
        name: Seq::empty(),
        steps: Seq::empty(),
        is_parallel: false,
        sub_stages: Seq::empty(),
    }
}

pub open spec fn jenkins_stage_view(st: JenkinsStage) -> StageView
    decreases st,
{
    StageView {
        name: st.name@,
        steps: st.steps.deep_view(),
        is_parallel: st.is_parallel,
        sub_stages: Seq::new(
            st.sub_stages@.len(),
            |i: int|
                if 0 <= i < st.sub_stages@.len() {
                    jenkins_stage_view(st.sub_stages@[i])
                } else {
                    empty_stage_view()
                },
        ),
    }
}

pub open spec fn jenkins_stages_view(v: Vec<JenkinsStage>) -> Seq<StageView> {
    Seq::new(
        v@.len(),
        |i: int| if 0 <= i < v@.len() { jenkins_stage_view(v@[i]) } else { empty_stage_view() },
    )
}

impl View for JenkinsStage {
    type V = StageView;

    open spec fn view(&self) -> StageView {
        jenkins_stage_view(*self)
    }
}

impl View for PostConfig {
    type V = PostConfigView;

    open spec fn view(&self) -> PostConfigView {
        PostConfigView { key: self.key@, value: self.value.deep_view() }
    }
}

impl DeepView for PostConfig {
    type V = PostConfigView;

    open spec fn deep_view(&self) -> PostConfigView {
        self.view()
    }
}

impl View for Jenkinsfile {
    type V = DocView;

    open spec fn view(&self) -> DocView {
        DocView {
            name: self.name@,
            stages: jenkins_stages_view(self.stages),
            post: self.post.deep_view(),
        }
    }
}

/// The model of a document that no parse has filled yet.
pub open spec fn empty_doc_view() -> DocView {
    DocView { name: Seq::empty(), stages: Seq::empty(), post: Seq::empty() }
}

impl Default for Jenkinsfile {
    /// An empty document: no name, no stages, no post entries.
    fn default() -> (r: Self)
        ensures
            r@ == empty_doc_view(),
    {
        let r = Jenkinsfile { name: String::new(), stages: Vec::new(), post: Vec::new() };
        proof {
            assert(r@.stages =~= Seq::<StageView>::empty());
            assert(r@.post =~= Seq::<PostConfigView>::empty());
        }
        r
    }
}

impl Default for JenkinsStage {
    /// A blank stage: empty name, no steps, not parallel, no sub-stages.
    fn default() -> (r: Self)
        ensures
            r@ == empty_stage_view(),
    {
        let r = JenkinsStage {
            name: String::new(),
            steps: Vec::new(),
            is_parallel: false,
            sub_stages: Vec::new(),
        };
        proof {
            assert(r@.steps =~= Seq::<Seq<char>>::empty());
            assert(r@.sub_stages =~= Seq::<StageView>::empty());
        }
        r
    }
}

/// Appending to a stage list extends its model by the new stage's model.
pub proof fn lemma_jenkins_stages_view_push(
    v: Vec<JenkinsStage>,
    pushed: Vec<JenkinsStage>,
    st: JenkinsStage,
)
    requires
        pushed@ == v@.push(st),
    ensures
        jenkins_stages_view(pushed) == jenkins_stages_view(v).push(jenkins_stage_view(st)),
{
    assert(jenkins_stages_view(pushed) =~= jenkins_stages_view(v).push(jenkins_stage_view(st)));
}

} // verus!
