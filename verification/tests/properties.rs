use jenkinsfile::{is_declarative, parse, Jenkinsfile, StringLit};

#[test]
fn single_stage_single_step() {
    let code = "pipeline { agent { docker 'maven:3.3.3' } stages { stage('build') { steps { sh 'mvn --version' } } } }";
    let doc = parse(code).unwrap();
    assert_eq!(1, doc.stages.len());
    assert_eq!("build", doc.stages[0].name);
    assert_eq!(vec!["sh 'mvn --version'".to_string()], doc.stages[0].steps);
    assert_eq!(false, doc.stages[0].is_parallel);
    assert_eq!(0, doc.stages[0].sub_stages.len());
}

#[test]
fn three_sibling_stages_in_order() {
    let code = r#"pipeline {
    agent none
    stages {
        stage('Build') {
            steps {
                checkout scm
                sh 'make'
                stash includes: '**/target/*.jar', name: 'app'
            }
        }
        stage('Second') { steps { sh 'b' } }
        stage('Third') { steps { sh 'c' } }
    }
}
"#;
    let doc = parse(code).unwrap();
    assert_eq!(3, doc.stages.len());
    assert_eq!("Build", doc.stages[0].name);
    assert_eq!(3, doc.stages[0].steps.len());
    assert_eq!("Second", doc.stages[1].name);
    assert_eq!("Third", doc.stages[2].name);
}

#[test]
fn nested_stages_are_sequential() {
    let code = "pipeline { agent any stages { stage('outer') { stages { stage('a') { steps { sh 'x' } } stage('b') { steps { sh 'y' } } } } } }";
    let doc = parse(code).unwrap();
    assert_eq!(1, doc.stages.len());
    assert_eq!(2, doc.stages[0].sub_stages.len());
    assert_eq!(false, doc.stages[0].is_parallel);
    assert_eq!("a", doc.stages[0].sub_stages[0].name);
    assert_eq!("b", doc.stages[0].sub_stages[1].name);
}

#[test]
fn parallel_branches_are_marked() {
    let code = "pipeline { agent any stages { stage('fan') { parallel { stage('left') { steps { sh 'l' } } stage('right') { steps { sh 'r' } } } } } }";
    let doc = parse(code).unwrap();
    assert_eq!(1, doc.stages.len());
    assert_eq!(true, doc.stages[0].is_parallel);
    assert_eq!(2, doc.stages[0].sub_stages.len());
    assert_eq!("left", doc.stages[0].sub_stages[0].name);
    assert_eq!("right", doc.stages[0].sub_stages[1].name);
}

#[test]
fn unbounded_nesting_depth_three() {
    // A stage containing stages containing a stage containing parallel
    // containing two stages: depth three, innermost parallel with two
    // branches.
    let code = "pipeline { agent any stages { stage('d1') { stages { stage('d2') { parallel { stage('d3a') { steps { sh 'a' } } stage('d3b') { steps { sh 'b' } } } } } } } }";
    let doc = parse(code).unwrap();
    assert_eq!(1, doc.stages.len());
    let d1 = &doc.stages[0];
    assert_eq!(false, d1.is_parallel);
    assert_eq!(1, d1.sub_stages.len());
    let d2 = &d1.sub_stages[0];
    assert_eq!(true, d2.is_parallel);
    assert_eq!(2, d2.sub_stages.len());
    assert_eq!("d3a", d2.sub_stages[0].name);
    assert_eq!("d3b", d2.sub_stages[1].name);
}

#[test]
fn quote_styles_decode_alike_in_stage_names() {
    let bodies = [
        "pipeline { agent any stages { stage('x') { steps { sh 'a' } } } }",
        "pipeline { agent any stages { stage(\"x\") { steps { sh 'a' } } } }",
        "pipeline { agent any stages { stage('''x''') { steps { sh 'a' } } } }",
        "pipeline { agent any stages { stage(\"\"\"x\"\"\") { steps { sh 'a' } } } }",
    ];
    for code in bodies.iter() {
        let doc = parse(code).unwrap();
        assert_eq!("x", doc.stages[0].name, "failed for {}", code);
    }
}

#[test]
fn literal_decoder_is_style_agnostic() {
    assert_eq!("x", StringLit::Single("x".to_string()).decode());
    assert_eq!("x", StringLit::Double("x".to_string()).decode());
    assert_eq!("x", StringLit::TripleSingle("x".to_string()).decode());
    assert_eq!("x", StringLit::TripleDouble("x".to_string()).decode());
}

#[test]
fn sanity_check_finds_marker_anywhere() {
    assert!(is_declarative("pipeline {"));
    assert!(is_declarative("// header\npipeline\n{\n}"));
    assert!(is_declarative("xx pipeline   { yy"));
    assert!(!is_declarative("pipe line {"));
    assert!(!is_declarative("pipeline"));
    assert!(!is_declarative(""));
}

#[test]
fn script_step_is_captured_whole() {
    let code = "pipeline { agent any stages { stage('s') { steps { script {\n sh 'one'\n sh 'two'\n } } } } }";
    let doc = parse(code).unwrap();
    assert_eq!(1, doc.stages[0].steps.len());
    assert_eq!("script {\n sh 'one'\n sh 'two'\n }", doc.stages[0].steps[0]);
}

#[test]
fn step_text_is_verbatim_and_trimmed() {
    let code = "pipeline { agent any stages { stage('s') { steps {\n  stash includes: '**/*.jar', name: 'app'  \n  sleep 10\n } } } }";
    let doc = parse(code).unwrap();
    assert_eq!(
        vec![
            "stash includes: '**/*.jar', name: 'app'".to_string(),
            "sleep 10".to_string(),
        ],
        doc.stages[0].steps
    );
}

#[test]
fn brace_inside_step_literal_does_not_close_block() {
    let code = "pipeline { agent any stages { stage('s') { steps { echo 'a } b' } } } }";
    let doc = parse(code).unwrap();
    assert_eq!(vec!["echo 'a } b'".to_string()], doc.stages[0].steps);
}

#[test]
fn top_level_post_entries_are_recorded() {
    let code = "pipeline { agent any stages { stage('s') { steps { sh 'x' } } } post { always { junit 'target/*.xml' } failure { mail 'admin' } } }";
    let doc = parse(code).unwrap();
    assert_eq!(2, doc.post.len());
    assert_eq!("always", doc.post[0].key);
    assert_eq!(vec!["junit 'target/*.xml'".to_string()], doc.post[0].value);
    assert_eq!("failure", doc.post[1].key);
    assert_eq!(vec!["mail 'admin'".to_string()], doc.post[1].value);
}

#[test]
fn empty_steps_block_is_still_content() {
    let code = "pipeline { agent any stages { stage('s') { steps { } } } }";
    let doc = parse(code).unwrap();
    assert_eq!(1, doc.stages.len());
    assert_eq!(0, doc.stages[0].steps.len());
}

#[test]
fn empty_stage_name_is_kept_not_rejected() {
    let code = "pipeline { agent any stages { stage('') { steps { sh 'x' } } } }";
    let doc = parse(code).unwrap();
    assert_eq!("", doc.stages[0].name);
}

#[test]
fn from_str_always_returns_a_document() {
    let doc = Jenkinsfile::from_str("complete garbage").unwrap();
    assert_eq!(0, doc.stages.len());
    let doc2 = Jenkinsfile::from_str("pipeline { agent any oops ( }").unwrap();
    assert_eq!(0, doc2.stages.len());
}

#[test]
fn from_str_keeps_tree_when_validation_fails() {
    // No top-level agent: the strict parse rejects the input, but the
    // lenient entry point still exposes the stage tree it built.
    let code = "pipeline { stages { stage('b') { steps { sh 'x' } } } }";
    assert!(parse(code).is_err());
    let doc = Jenkinsfile::from_str(code).unwrap();
    assert_eq!(1, doc.stages.len());
    assert_eq!("b", doc.stages[0].name);
}

#[test]
fn default_document_is_empty() {
    let doc = Jenkinsfile::default();
    assert_eq!("", doc.name);
    assert_eq!(0, doc.stages.len());
    assert_eq!(0, doc.post.len());
}

#[test]
fn triple_quoted_step_spans_lines() {
    let code = "pipeline { agent any stages { stage('s') { steps {\n  sh '''first\nsecond'''\n  sleep 1\n } } } }";
    let doc = parse(code).unwrap();
    assert_eq!(2, doc.stages[0].steps.len());
    assert_eq!("sh '''first\nsecond'''", doc.stages[0].steps[0]);
    assert_eq!("sleep 1", doc.stages[0].steps[1]);
}
