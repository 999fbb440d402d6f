//! A parsing front end for declarative build-pipeline descriptions.
//!
//! Given raw source text, the library decides whether it is a valid
//! declarative pipeline, rejects malformed or incomplete structures with a
//! located diagnostic, and produces an ordered tree of named stages —
//! nested sequentially or branching in parallel — together with the
//! post-condition entries, all captured from the text.
//!
//! `parse` is the strict entry point: sanity check, grammar, tree build,
//! structural validation, in that order, failing fast on the first
//! violation. `Jenkinsfile::from_str` is the lenient one: it returns
//! whatever tree the grammar produced, even when validation rejects it.
//! Every function is specified against the grammar in `grammar`, the
//! builder in `builder` and the validator in `validate`.

use vstd::prelude::*;

pub mod builder;
pub mod err;
pub mod grammar;
pub mod laws;
pub mod lit;
pub mod model;
pub mod scan;
pub mod text;
pub mod tree;
pub mod validate;

pub use err::{DirectiveKind, Expectation, ParseError};
pub use lit::StringLit;
pub use model::{Jenkinsfile, JenkinsStage, PostConfig};
pub use tree::{StageItem, StageNode, TopItem};

verus! {

use crate::builder::{build_doc, build_doc_x, lemma_build_doc_acc_name};
use crate::err::ErrView;
use crate::grammar::{kw_pipeline, scan_pipeline};
use crate::model::{empty_doc_view, DocView};
use crate::text::{matches_at, matches_at_x, skip_ws, skip_ws_x};
use crate::tree::{top_items_view, TopItemView};
use crate::validate::{validate, validate_x};

/// The marker the sanity check looks for: the text `pipeline` at `i`,
/// then optional whitespace, then an opening brace.
pub open spec fn marker_at(s: Seq<char>, i: int) -> bool {
    matches_at(s, i, kw_pipeline()) && {
        let j = skip_ws(s, i + kw_pipeline().len());
        j < s.len() && s[j] == '{'
    }
}

/// The text holds a `pipeline {` marker somewhere.
pub open spec fn is_declarative_spec(s: Seq<char>) -> bool {
    exists|i: int| marker_at(s, i)
}

/// Quick sanity test: does the text hold `pipeline`, optional whitespace
/// and `{` anywhere? Run before the grammar so that unrelated input gets a
/// friendlier diagnostic than a generic syntax error.
#[verifier::loop_isolation(false)]
pub fn is_declarative(s: &str) -> (r: bool)
    ensures
        r == is_declarative_spec(s@),
{
    proof {
        reveal_strlit("pipeline");
        assert("pipeline"@ =~= kw_pipeline());
    }
    let n: usize = s.unicode_len();
    let mut i: usize = 0;
    while i < n
        invariant
            0 <= i <= n,
            n == s@.len(),
            forall|t: int| t < i ==> !marker_at(s@, t),
        decreases n - i,
    {
        if matches_at_x(s, i, "pipeline") {
            let j = skip_ws_x(s, i + 8);
            if j < n && s.get_char(j) == '{' {
                proof {
                    assert(marker_at(s@, i as int));
                }
                return true;
            }
        }
        i = i + 1;
    }
    proof {
        assert(forall|t: int| t >= n ==> !marker_at(s@, t));
    }
    false
}

/// What a strict parse of `s` yields: the sanity check, the grammar, the
/// validator and the builder composed, failing fast at the first
/// violation.
pub open spec fn parse_spec(s: Seq<char>) -> Result<DocView, ErrView> {
    if !is_declarative_spec(s) {
        Err(ErrView::NotDeclarative)
    } else {
        match scan_pipeline(s) {
            Err(e) => Err(ErrView::Syntax(e)),
            Ok(items) => match validate(items) {
                Some(err) => Err(err),
                None => Ok(build_doc(items)),
            },
        }
    }
}

/// The error a parse of `s` reports, if any.
pub open spec fn parse_err_spec(s: Seq<char>) -> Option<ErrView> {
    match parse_spec(s) {
        Ok(d) => None,
        Err(e) => Some(e),
    }
}

/// What `Jenkinsfile::parse_pipeline_string` leaves in a document whose
/// model was `before`: the built tree whenever the grammar matched, also
/// when validation then failed, and the old contents otherwise. The name
/// is never touched.
pub open spec fn partial_doc_spec(s: Seq<char>, before: DocView) -> DocView {
    if !is_declarative_spec(s) {
        before
    } else {
        match scan_pipeline(s) {
            Err(e) => before,
            Ok(items) => DocView {
                name: before.name,
                stages: build_doc(items).stages,
                post: build_doc(items).post,
            },
        }
    }
}

/// The grammar front end: it recognizes the pipeline language's surface
/// syntax and produces the concrete parse tree.
pub struct PipelineParser;

impl PipelineParser {
    /// Match the whole text against the `pipeline` production: the
    /// top-level directives of the concrete tree, or the syntax error at
    /// the position the grammar stopped.
    pub fn parse_source(text: &str) -> (r: Result<Vec<TopItem>, ParseError>)
        ensures
            match r {
                Ok(items) => scan_pipeline(text@) == Ok::<Seq<TopItemView>, crate::err::SynView>(
                    top_items_view(items),
                ),
                Err(e) => scan_pipeline(text@) matches Err(f) && e@ == ErrView::Syntax(f),
            },
    {
        match crate::scan::scan_pipeline_x(text) {
            Ok(items) => Ok(items),
            Err(f) => Err(ParseError::Syntax { pos: f.pos, expected: f.expected }),
        }
    }
}

impl Jenkinsfile {
    /// Lenient parse: always yields a document. It holds the stage tree
    /// and post entries whenever the text matched the grammar — even if
    /// the validator then rejected the structure — and is empty otherwise.
    pub fn from_str(text: &str) -> (r: Option<Jenkinsfile>)
        ensures
            r matches Some(doc) && doc@ == partial_doc_spec(text@, empty_doc_view()),
    {
        let mut doc = Jenkinsfile::default();
        let _outcome = doc.parse_pipeline_string(text);
        Some(doc)
    }

    /// Parse `buffer` into this document: sanity check, grammar, tree
    /// build, validation, in that order. On a sanity or syntax failure the
    /// document is left as it was; on a validation failure it keeps the
    /// tree that was built, and the error says what was wrong.
    pub fn parse_pipeline_string(&mut self, buffer: &str) -> (r: Result<(), ParseError>)
        ensures
            final(self)@ == partial_doc_spec(buffer@, old(self)@),
            match r {
                Ok(u) => parse_err_spec(buffer@) is None,
                Err(e) => parse_err_spec(buffer@) == Some(e@),
            },
    {
        if !is_declarative(buffer) {
            return Err(ParseError::NotDeclarative);
        }
        match PipelineParser::parse_source(buffer) {
            Err(e) => Err(e),
            Ok(items) => {
                let (built_stages, built_post) = build_doc_x(&items);
                self.stages = built_stages;
                self.post = built_post;
                proof {
                    assert(self@.stages =~= crate::model::jenkins_stages_view(self.stages));
                }
                match validate_x(&items) {
                    Some(e) => Err(e),
                    None => Ok(()),
                }
            },
        }
    }
}

/// Strict parse: the validated document, or the first violation found.
///
/// The checks run in a fixed order: the `pipeline {` sanity test, the
/// grammar, top-level cardinality, stage content. An input that is wrong
/// in several ways is reported with the first of these to fail.
pub fn parse(text: &str) -> (r: Result<Jenkinsfile, ParseError>)
    ensures
        match r {
            Ok(doc) => parse_spec(text@) == Ok::<DocView, ErrView>(doc@),
            Err(e) => parse_spec(text@) == Err::<DocView, ErrView>(e@),
        },
{
    let mut doc = Jenkinsfile::default();
    let outcome = doc.parse_pipeline_string(text);
    proof {
        match scan_pipeline(text@) {
            Ok(items) => lemma_build_doc_acc_name(items, 0, empty_doc_view()),
            Err(e) => (),
        }
    }
    match outcome {
        Ok(u) => Ok(doc),
        Err(e) => Err(e),
    }
}

} // verus!
