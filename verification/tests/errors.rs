use jenkinsfile::{parse, DirectiveKind, Jenkinsfile, ParseError};

#[test]
fn rejects_non_declarative_input() {
    let code = "node { checkout scm }";
    match parse(code) {
        Err(ParseError::NotDeclarative) => {}
        other => panic!("expected NotDeclarative, got {:?}", other),
    }
}

#[test]
fn rejects_missing_pipeline_marker_without_tree() {
    let code = "stages { stage('x') { steps { sh 'a' } } }";
    assert_eq!(Err(ParseError::NotDeclarative), parse(code));
    // The lenient entry point yields an empty document for such input.
    let doc = Jenkinsfile::from_str(code).unwrap();
    assert_eq!(0, doc.stages.len());
    assert_eq!(0, doc.post.len());
}

#[test]
fn rejects_duplicate_agent_directive() {
    let code = "pipeline { agent any agent none stages { stage('b') { steps { sh 'x' } } } }";
    match parse(code) {
        Err(ParseError::DuplicateDirective { directive: DirectiveKind::Agent, .. }) => {}
        other => panic!("expected duplicate agent, got {:?}", other),
    }
}

#[test]
fn rejects_duplicate_stages_directive() {
    let code = "pipeline { agent any stages { stage('a') { steps { sh 'x' } } } stages { stage('b') { steps { sh 'y' } } } }";
    match parse(code) {
        Err(ParseError::DuplicateDirective { directive: DirectiveKind::Stages, .. }) => {}
        other => panic!("expected duplicate stages, got {:?}", other),
    }
}

#[test]
fn rejects_missing_stages_directive() {
    let code = "pipeline { agent any }";
    assert_eq!(
        Err(ParseError::MissingDirective { directive: DirectiveKind::Stages }),
        parse(code)
    );
}

#[test]
fn rejects_missing_agent_directive() {
    let code = "pipeline { stages { stage('b') { steps { sh 'x' } } } }";
    assert_eq!(
        Err(ParseError::MissingDirective { directive: DirectiveKind::Agent }),
        parse(code)
    );
}

#[test]
fn rejects_empty_stage_at_top_level() {
    let code = "pipeline { agent any stages { stage('hollow') { agent any } } }";
    match parse(code) {
        Err(ParseError::EmptyStage { .. }) => {}
        other => panic!("expected EmptyStage, got {:?}", other),
    }
}

#[test]
fn rejects_empty_stage_nested_deep() {
    let code = "pipeline { agent any stages { stage('outer') { stages { stage('mid') { parallel { stage('leaf') { environment { A = 'b' } } } } } } } }";
    match parse(code) {
        Err(ParseError::EmptyStage { .. }) => {}
        other => panic!("expected nested EmptyStage, got {:?}", other),
    }
}

#[test]
fn rejects_unclosed_block_as_syntax_error() {
    let code = "pipeline { agent any stages { stage('a') { steps { sh 'x' } }";
    match parse(code) {
        Err(ParseError::Syntax { .. }) => {}
        other => panic!("expected Syntax, got {:?}", other),
    }
}

#[test]
fn rejects_unclosed_string_literal() {
    let code = "pipeline { agent any stages { stage('a) { steps { sh 'x' } } } }";
    match parse(code) {
        Err(ParseError::Syntax { .. }) => {}
        other => panic!("expected Syntax for unclosed literal, got {:?}", other),
    }
}

#[test]
fn cardinality_is_checked_before_stage_content() {
    // Both the top-level agent and the stage's content are wrong; the
    // cardinality pass runs first, so the missing agent wins.
    let code = "pipeline { stages { stage('s') { agent any } } }";
    assert_eq!(
        Err(ParseError::MissingDirective { directive: DirectiveKind::Agent }),
        parse(code)
    );
}

#[test]
fn errors_describe_themselves() {
    let err = parse("node { }").unwrap_err();
    assert_eq!("no `pipeline {` block was found in the input", err.describe());
    let err = parse("pipeline { agent any agent any stages { stage('a') { steps { sh 'x' } } } }")
        .unwrap_err();
    assert_eq!("a directive that must be singular occurs twice", err.describe());
}

#[test]
fn trailing_garbage_is_a_syntax_error() {
    let code = "pipeline { agent any stages { stage('a') { steps { sh 'x' } } } } trailing";
    match parse(code) {
        Err(ParseError::Syntax { .. }) => {}
        other => panic!("expected Syntax for trailing text, got {:?}", other),
    }
}
