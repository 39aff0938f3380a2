//! What the language front-end reports about a document. The front-end
//! itself — lexer, parser, type checker, warning collector and built-in
//! catalog — is an external collaborator; its findings are handed to the
//! diagnostics pipeline as the plain values below.

use vstd::prelude::*;
use crate::ast::{Parameter, Span, Type};

verus! {

/// A parse error reported by parse-with-recovery: a message and the
/// 1-based span it points at.
#[derive(Debug, PartialEq)]
pub struct ParseError {
    pub message: String,
    pub span: Span,
}

/// A type error reported by the type checker. The human-readable
/// explanation is formatted by the front-end and travels separately.
#[derive(Debug, PartialEq)]
pub enum TypeError {
    UndefinedVariable { span: Span },
    TypeMismatch { span: Span },
    CannotInferType { span: Span },
    InvalidOperation { span: Span },
}

/// A warning reported by the warning collector.
#[derive(Debug, PartialEq)]
pub enum Warning {
    UnusedVariable { name: String, span: Span },
    UnusedFunction { name: String, span: Span },
    DeadCode { span: Span, reason: String },
    UnreachableCode { span: Span },
}

/// One entry of the built-in function catalog: name, parameters, return
/// type and a human-readable description.
#[derive(Debug, PartialEq)]
pub struct BuiltinFn {
    pub name: String,
    pub params: Vec<Parameter>,
    pub return_type: Type,
    pub description: String,
}

/// The outcome of the type-checking stage on a parsed document.
#[derive(Debug, PartialEq)]
pub enum TypeCheckOutcome {
    /// Parse-with-recovery produced no program, so nothing was checked.
    NotParsed,
    /// Type checking passed; warning collection reported these.
    Passed { warnings: Vec<Warning> },
    /// A type error, with the front-end's formatted explanation.
    Failed { error: TypeError, formatted: String },
    /// An internal fault during type checking: it contributes no
    /// diagnostics, and the parse-stage diagnostics still stand.
    Faulted,
}

/// Everything the front-end said about one document: the parse errors
/// from recovery, and the outcome of type checking.
#[derive(Debug, PartialEq)]
pub struct AnalysisInput {
    pub parse_errors: Vec<ParseError>,
    pub typecheck: TypeCheckOutcome,
}

} // verus!
