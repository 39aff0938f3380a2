//! Diagnostics: protocol-facing positions, ranges and diagnostics; the
//! rendering of 1-based front-end spans as 0-based one-character
//! protocol ranges (this module is the sole place where that happens);
//! and the pipeline that turns the front-end's findings on one document
//! into the ordered diagnostic list the editor shows.

use vstd::prelude::*;
use vstd::string::*;
use crate::backend::Backend;
use crate::frontend::{AnalysisInput, ParseError, TypeCheckOutcome, TypeError, Warning};
use crate::text::{first_line, spec_first_line};

verus! {

/// A 0-based protocol position (line, character), as editors consume it.
#[derive(Clone, Copy, Debug, PartialEq, Eq, Structural)]
pub struct Position {
    pub line: u32,
    pub character: u32,
}

/// A half-open protocol range between two 0-based positions.
#[derive(Clone, Copy, Debug, PartialEq, Eq, Structural)]
pub struct Range {
    pub start: Position,
    pub end: Position,
}

/// Translation of one 1-based coordinate into its 0-based protocol value,
/// clamped into `u32`.
pub open spec fn spec_to_zero_based(x: int) -> u32 {
    if x <= 1 {
        0u32
    } else if x - 1 >= u32::MAX {
        u32::MAX
    } else {
        (x - 1) as u32
    }
}

/// The one-character protocol range for a front-end span at `line`, `col`
/// (both 1-based): `(line-1, col-1)..(line-1, col)`.
pub open spec fn spec_span_to_range(line: int, col: int) -> Range {
    let l = spec_to_zero_based(line);
    let c = spec_to_zero_based(col);
    Range {
        start: Position { line: l, character: c },
        end: Position {
            line: l,
            character: if c == u32::MAX { u32::MAX } else { (c + 1) as u32 },
        },
    }
}

/// Turns one 1-based coordinate into its 0-based protocol value.
pub fn to_zero_based(x: usize) -> (r: u32)
    ensures
        r == spec_to_zero_based(x as int),
{
    if x <= 1 {
        0
    } else if x - 1 >= u32::MAX as usize {
        u32::MAX
    } else {
        (x - 1) as u32
    }
}

/// Renders a 1-based front-end span as the one-character 0-based protocol
/// range `(line-1, col-1)..(line-1, col)`.
pub fn span_to_range(line: usize, col: usize) -> (r: Range)
    ensures
        r == spec_span_to_range(line as int, col as int),
{
    let l = to_zero_based(line);
    let c = to_zero_based(col);
    Range {
        start: Position { line: l, character: c },
        end: Position {
            line: l,
            character: if c == u32::MAX { u32::MAX } else { c + 1 },
        },
    }
}

/// How severe a diagnostic is: a hard error or a warning.
#[derive(Clone, Copy, Debug, PartialEq, Eq, Structural)]
pub enum Severity {
    Error,
    Warning,
}

/// A positioned, severity-tagged message, as the editor renders it.
#[derive(Clone, Debug, PartialEq)]
pub struct Diagnostic {
    pub range: Range,
    pub severity: Severity,
    pub source: String,
    pub message: String,
}

/// The mathematical content of a diagnostic.
pub ghost struct DiagView {
    pub range: Range,
    pub severity: Severity,
    pub source: Seq<char>,
    pub message: Seq<char>,
}

impl View for Diagnostic {
    type V = DiagView;

    open spec fn view(&self) -> DiagView {
        DiagView {
            range: self.range,
            severity: self.severity,
            source: self.source@,
            message: self.message@,
        }
    }
}

/// The contents of a diagnostic list.
pub open spec fn diags_view(s: Seq<Diagnostic>) -> Seq<DiagView> {
    s.map_values(|d: Diagnostic| d@)
}

/// The diagnostic one parse error becomes: an error at the translated
/// span, carrying the front-end's message verbatim.
pub open spec fn spec_parse_error_diag(e: ParseError) -> DiagView {
    DiagView {
        range: spec_span_to_range(e.span.start.line as int, e.span.start.column as int),
        severity: Severity::Error,
        source: "pain"@,
        message: e.message@,
    }
}

/// The span a type error points at.
pub open spec fn spec_type_error_span(e: TypeError) -> crate::ast::Span {
    match e {
        TypeError::UndefinedVariable { span } => span,
        TypeError::TypeMismatch { span } => span,
        TypeError::CannotInferType { span } => span,
        TypeError::InvalidOperation { span } => span,
    }
}

/// The diagnostic one type error becomes: an error at the translated
/// span whose message is the first line of the front-end's formatted
/// explanation — multi-line detail is deliberately suppressed.
pub open spec fn spec_type_error_diag(e: TypeError, formatted: Seq<char>) -> DiagView {
    let span = spec_type_error_span(e);
    DiagView {
        range: spec_span_to_range(span.start.line as int, span.start.column as int),
        severity: Severity::Error,
        source: "pain"@,
        message: spec_first_line(formatted),
    }
}

/// The message one warning carries.
pub open spec fn spec_warning_message(w: Warning) -> Seq<char> {
    match w {
        Warning::UnusedVariable { name, span: _ } => "unused variable `"@ + name@ + "`"@,
        Warning::UnusedFunction { name, span: _ } => "unused function `"@ + name@ + "`"@,
        Warning::DeadCode { span: _, reason } => "dead code: "@ + reason@,
        Warning::UnreachableCode { span: _ } => "unreachable code"@,
    }
}

/// The span one warning points at.
pub open spec fn spec_warning_span(w: Warning) -> crate::ast::Span {
    match w {
        Warning::UnusedVariable { name: _, span } => span,
        Warning::UnusedFunction { name: _, span } => span,
        Warning::DeadCode { span, reason: _ } => span,
        Warning::UnreachableCode { span } => span,
    }
}

/// The diagnostic one warning becomes.
pub open spec fn spec_warning_diag(w: Warning) -> DiagView {
    let span = spec_warning_span(w);
    DiagView {
        range: spec_span_to_range(span.start.line as int, span.start.column as int),
        severity: Severity::Warning,
        source: "pain"@,
        message: spec_warning_message(w),
    }
}

/// The diagnostics of the first `i` parse errors, in order.
pub open spec fn spec_parse_diags(errs: Seq<ParseError>, i: int) -> Seq<DiagView>
    decreases i,
{
    if i <= 0 {
        Seq::<DiagView>::empty()
    } else {
        spec_parse_diags(errs, i - 1).push(spec_parse_error_diag(errs[i - 1]))
    }
}

/// The diagnostics of the first `i` warnings, in order.
pub open spec fn spec_warning_diags(ws: Seq<Warning>, i: int) -> Seq<DiagView>
    decreases i,
{
    if i <= 0 {
        Seq::<DiagView>::empty()
    } else {
        spec_warning_diags(ws, i - 1).push(spec_warning_diag(ws[i - 1]))
    }
}

/// The whole diagnostic list for one document: every parse error first,
/// then — depending on how type checking went — the warnings, exactly
/// one type error, or nothing (no program, or an internal fault).
pub open spec fn spec_check_document(input: AnalysisInput) -> Seq<DiagView> {
    let base = spec_parse_diags(input.parse_errors@, input.parse_errors@.len() as int);
    match input.typecheck {
        TypeCheckOutcome::NotParsed => base,
        TypeCheckOutcome::Faulted => base,
        TypeCheckOutcome::Passed { warnings } => base + spec_warning_diags(
            warnings@,
            warnings@.len() as int,
        ),
        TypeCheckOutcome::Failed { error, formatted } => base.push(
            spec_type_error_diag(error, formatted@),
        ),
    }
}

impl Backend {
    /// Renders one parse error as an error diagnostic at its span.
    pub fn parse_error_to_diagnostic(&self, err: &ParseError) -> (r: Diagnostic)
        ensures
            r@ == spec_parse_error_diag(*err),
    {
        Diagnostic {
            range: span_to_range(err.span.start.line, err.span.start.column),
            severity: Severity::Error,
            source: String::from_str("pain"),
            message: err.message.clone(),
        }
    }

    /// Renders one type error as an error diagnostic whose message is
    /// the first line of the front-end's formatted explanation.
    pub fn type_error_to_diagnostic(&self, err: &TypeError, formatted_msg: &str) -> (r: Diagnostic)
        ensures
            r@ == spec_type_error_diag(*err, formatted_msg@),
    {
        let span = match err {
            TypeError::UndefinedVariable { span } => *span,
            TypeError::TypeMismatch { span } => *span,
            TypeError::CannotInferType { span } => *span,
            TypeError::InvalidOperation { span } => *span,
        };
        Diagnostic {
            range: span_to_range(span.start.line, span.start.column),
            severity: Severity::Error,
            source: String::from_str("pain"),
            message: first_line(formatted_msg),
        }
    }

    /// Renders one warning as a warning diagnostic at its span.
    pub fn warning_to_diagnostic(&self, warning: &Warning, _text: &str) -> (r: Diagnostic)
        ensures
            r@ == spec_warning_diag(*warning),
    {
        let (message, span) = match warning {
            Warning::UnusedVariable { name, span } => {
                let mut m = String::from_str("unused variable `");
                m.append(name.as_str());
                m.append("`");
                (m, *span)
            },
            Warning::UnusedFunction { name, span } => {
                let mut m = String::from_str("unused function `");
                m.append(name.as_str());
                m.append("`");
                (m, *span)
            },
            Warning::DeadCode { span, reason } => {
                let mut m = String::from_str("dead code: ");
                m.append(reason.as_str());
                (m, *span)
            },
            Warning::UnreachableCode { span } => (String::from_str("unreachable code"), *span),
        };
        Diagnostic {
            range: span_to_range(span.start.line, span.start.column),
            severity: Severity::Warning,
            source: String::from_str("pain"),
            message,
        }
    }

    /// The diagnostics pipeline on one document, over what the front-end
    /// reported: parse errors first, then warnings or the one type
    /// error. An internal fault during type checking contributes
    /// nothing, and parse-stage diagnostics already collected still
    /// stand. The list is a function of the input alone, so identical
    /// analyses yield identical diagnostic lists.
    #[verifier::loop_isolation(false)]
    pub fn check_document(&self, input: &AnalysisInput) -> (r: Vec<Diagnostic>)
        ensures
            diags_view(r@) == spec_check_document(*input),
    {
        let mut diagnostics: Vec<Diagnostic> = Vec::new();
        proof {
            assert(diags_view(diagnostics@) =~= Seq::<DiagView>::empty());
        }
        let mut i: usize = 0;
        while i < input.parse_errors.len()
            invariant
                0 <= i <= input.parse_errors@.len(),
                diags_view(diagnostics@) == spec_parse_diags(input.parse_errors@, i as int),
            decreases input.parse_errors@.len() - i,
        {
            let d = self.parse_error_to_diagnostic(&input.parse_errors[i]);
            diagnostics.push(d);
            proof {
                assert(diags_view(diagnostics@) =~= spec_parse_diags(
                    input.parse_errors@,
                    i as int + 1,
                ));
            }
            i = i + 1;
        }
        match &input.typecheck {
            TypeCheckOutcome::NotParsed => {},
            TypeCheckOutcome::Faulted => {},
            TypeCheckOutcome::Passed { warnings } => {
                let ghost base = diags_view(diagnostics@);
                proof {
                    assert(diags_view(diagnostics@) =~= base + spec_warning_diags(warnings@, 0));
                }
                let mut j: usize = 0;
                while j < warnings.len()
                    invariant
                        0 <= j <= warnings@.len(),
                        diags_view(diagnostics@) == base + spec_warning_diags(
                            warnings@,
                            j as int,
                        ),
                    decreases warnings@.len() - j,
                {
                    let d = self.warning_to_diagnostic(&warnings[j], "");
                    let ghost before = diags_view(diagnostics@);
                    let ghost dv = d@;
                    diagnostics.push(d);
                    proof {
                        assert(diags_view(diagnostics@) =~= before.push(dv));
                        assert(spec_warning_diags(warnings@, j as int + 1)
                            == spec_warning_diags(warnings@, j as int).push(
                            spec_warning_diag(warnings@[j as int]),
                        ));
                        assert(diags_view(diagnostics@) =~= base + spec_warning_diags(
                            warnings@,
                            j as int + 1,
                        ));
                    }
                    j = j + 1;
                }
            },
            TypeCheckOutcome::Failed { error, formatted } => {
                let d = self.type_error_to_diagnostic(error, formatted.as_str());
                diagnostics.push(d);
                proof {
                    assert(diags_view(diagnostics@) =~= spec_check_document(*input));
                }
            },
        }
        proof {
            assert(diags_view(diagnostics@) =~= spec_check_document(*input));
        }
        diagnostics
    }
}

} // verus!
