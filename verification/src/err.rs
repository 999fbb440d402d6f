//! The error taxonomy of the parser.
//!
//! Every failure is surfaced as a typed value carrying enough information to
//! point a caller at the offending input position: the production expected at
//! a syntax error, the directive and position of a cardinality violation, or
//! the position of a stage without executable content.

use vstd::prelude::*;

verus! {

/// The production or token a failed scan was looking for.
#[derive(Debug, PartialEq, Eq, Clone, Copy)]
pub enum Expectation {
    PipelineKeyword,
    OpenBrace,
    CloseBrace,
    OpenParen,
    CloseParen,
    DirectiveName,
    DirectiveArgument,
    StageKeyword,
    StringLiteral,
    ClosingQuote,
    EndOfInput,
}

/// A top-level directive whose cardinality the validator enforces.
#[derive(Debug, PartialEq, Eq, Clone, Copy)]
pub enum DirectiveKind {
    Agent,
    Stages,
}

/// A failed scan: the position that could not be matched and what was
/// expected there. Used inside the grammar layer; the public error type
/// wraps it as `ParseError::Syntax`.
#[derive(Debug, PartialEq, Eq, Clone, Copy)]
pub struct SynFail {
    pub pos: usize,
    pub expected: Expectation,
}

/// Mathematical model of a failed scan, with an unbounded position.
pub struct SynView {
    pub pos: int,
    pub expected: Expectation,
}

impl View for SynFail {
    type V = SynView;

    open spec fn view(&self) -> SynView {
        SynView { pos: self.pos as int, expected: self.expected }
    }
}

/// Why a parse was rejected.
#[derive(Debug, PartialEq, Eq, Clone, Copy)]
pub enum ParseError {
    /// The text holds no `pipeline {` block at all.
    NotDeclarative,
    /// The grammar could not match the input at `pos`.
    Syntax { pos: usize, expected: Expectation },
    /// A top-level directive required to be singular occurs again at `pos`.
    DuplicateDirective { pos: usize, directive: DirectiveKind },
    /// A required top-level directive is absent.
    MissingDirective { directive: DirectiveKind },
    /// The stage starting at `pos` has no steps, parallel branches or
    /// nested stages.
    EmptyStage { pos: usize },
}

/// Mathematical model of a parse error.
pub enum ErrView {
    NotDeclarative,
    Syntax(SynView),
    DuplicateDirective(int, DirectiveKind),
    MissingDirective(DirectiveKind),
    EmptyStage(int),
}

impl View for ParseError {
    type V = ErrView;

    open spec fn view(&self) -> ErrView {
        match self {
            ParseError::NotDeclarative => ErrView::NotDeclarative,
            ParseError::Syntax { pos, expected } => ErrView::Syntax(
                SynView { pos: *pos as int, expected: *expected },
            ),
            ParseError::DuplicateDirective { pos, directive } => ErrView::DuplicateDirective(
                *pos as int,
                *directive,
            ),
            ParseError::MissingDirective { directive } => ErrView::MissingDirective(*directive),
            ParseError::EmptyStage { pos } => ErrView::EmptyStage(*pos as int),
        }
    }
}

impl ParseError {
    /// A short human-readable account of the error, for callers that
    /// report to a user.
    pub fn describe(&self) -> (r: &'static str) {
        match self {
            ParseError::NotDeclarative => "no `pipeline {` block was found in the input",
            ParseError::Syntax { .. } => "the input could not be matched against the grammar",
            ParseError::DuplicateDirective { .. } => "a directive that must be singular occurs twice",
            ParseError::MissingDirective { .. } => "a required top-level directive is absent",
            ParseError::EmptyStage { .. } => "a stage has no steps, parallel branches or nested stages",
        }
    }
}

} // verus!
