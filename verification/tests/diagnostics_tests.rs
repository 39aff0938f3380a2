use pain_lsp::ast::{Span, SrcPosition};
use pain_lsp::backend::Backend;
use pain_lsp::diagnostics::Severity;
use pain_lsp::frontend::{AnalysisInput, ParseError, TypeCheckOutcome, TypeError, Warning};

fn span(line: usize, col: usize) -> Span {
    Span {
        start: SrcPosition { line, column: col },
        end: SrcPosition { line, column: col + 1 },
    }
}

#[test]
fn test_position_translation() {
    // a front-end error at (line=3, col=5) maps to protocol (2,4)-(2,5)
    let backend = Backend::new(vec![]);
    let err = ParseError { message: "unexpected token".to_string(), span: span(3, 5) };
    let d = backend.parse_error_to_diagnostic(&err);
    assert_eq!(d.range.start.line, 2);
    assert_eq!(d.range.start.character, 4);
    assert_eq!(d.range.end.line, 2);
    assert_eq!(d.range.end.character, 5);
    assert_eq!(d.severity, Severity::Error);
    assert_eq!(d.source, "pain");
    assert_eq!(d.message, "unexpected token");
}

#[test]
fn test_position_translation_saturates_at_origin() {
    let backend = Backend::new(vec![]);
    let err = ParseError { message: "m".to_string(), span: span(0, 0) };
    let d = backend.parse_error_to_diagnostic(&err);
    assert_eq!(d.range.start.line, 0);
    assert_eq!(d.range.start.character, 0);
    assert_eq!(d.range.end.character, 1);
}

#[test]
fn test_valid_code_no_diagnostics() {
    // a clean document: parse errors none, type check passed, no warnings
    let backend = Backend::new(vec![]);
    let input = AnalysisInput {
        parse_errors: vec![],
        typecheck: TypeCheckOutcome::Passed { warnings: vec![] },
    };
    let diagnostics = backend.check_document(&input);
    let errors: Vec<_> =
        diagnostics.iter().filter(|d| d.severity == Severity::Error).collect();
    assert_eq!(errors.len(), 0, "Valid code should have no errors");
    assert_eq!(diagnostics.len(), 0);
}

#[test]
fn test_undefined_variable_error() {
    // let x = undefined_variable: exactly one error naming the variable
    let backend = Backend::new(vec![]);
    let input = AnalysisInput {
        parse_errors: vec![],
        typecheck: TypeCheckOutcome::Failed {
            error: TypeError::UndefinedVariable { span: span(3, 13) },
            formatted: "Undefined variable `undefined_variable`\nhelp: declare it first"
                .to_string(),
        },
    };
    let diagnostics = backend.check_document(&input);
    let errors: Vec<_> =
        diagnostics.iter().filter(|d| d.severity == Severity::Error).collect();
    assert!(!errors.is_empty(), "Should detect undefined variable error");
    assert_eq!(errors.len(), 1);
    assert!(
        errors[0].message.contains("undefined") || errors[0].message.contains("Undefined"),
        "Error message should mention undefined variable"
    );
    // only the first line of the formatted explanation is kept
    assert!(!errors[0].message.contains('\n'));
    assert_eq!(errors[0].message, "Undefined variable `undefined_variable`");
    assert_eq!(errors[0].range.start.line, 2);
    assert_eq!(errors[0].range.start.character, 12);
}

#[test]
fn test_type_mismatch_error() {
    let backend = Backend::new(vec![]);
    let input = AnalysisInput {
        parse_errors: vec![],
        typecheck: TypeCheckOutcome::Failed {
            error: TypeError::TypeMismatch { span: span(3, 5) },
            formatted: "Type mismatch: expected int, found str".to_string(),
        },
    };
    let diagnostics = backend.check_document(&input);
    let errors: Vec<_> =
        diagnostics.iter().filter(|d| d.severity == Severity::Error).collect();
    assert!(!errors.is_empty(), "Should detect type mismatch error");
}

#[test]
fn test_parse_error() {
    let backend = Backend::new(vec![]);
    let input = AnalysisInput {
        parse_errors: vec![ParseError {
            message: "expected expression".to_string(),
            span: span(3, 13),
        }],
        typecheck: TypeCheckOutcome::NotParsed,
    };
    let diagnostics = backend.check_document(&input);
    let errors: Vec<_> =
        diagnostics.iter().filter(|d| d.severity == Severity::Error).collect();
    assert!(!errors.is_empty(), "Should detect parse error");
}

#[test]
fn test_unused_variable_warning() {
    let backend = Backend::new(vec![]);
    let input = AnalysisInput {
        parse_errors: vec![],
        typecheck: TypeCheckOutcome::Passed {
            warnings: vec![Warning::UnusedVariable {
                name: "unused".to_string(),
                span: span(3, 9),
            }],
        },
    };
    let diagnostics = backend.check_document(&input);
    let warnings: Vec<_> =
        diagnostics.iter().filter(|d| d.severity == Severity::Warning).collect();
    assert!(!warnings.is_empty(), "Should detect unused variable warning");
    assert_eq!(warnings[0].message, "unused variable `unused`");
}

#[test]
fn test_warning_messages_per_kind() {
    let backend = Backend::new(vec![]);
    let w1 = backend.warning_to_diagnostic(
        &Warning::UnusedFunction { name: "helper".to_string(), span: span(2, 1) },
        "",
    );
    assert_eq!(w1.message, "unused function `helper`");
    assert_eq!(w1.severity, Severity::Warning);
    let w2 = backend.warning_to_diagnostic(
        &Warning::DeadCode { span: span(4, 5), reason: "after return".to_string() },
        "",
    );
    assert_eq!(w2.message, "dead code: after return");
    let w3 = backend.warning_to_diagnostic(&Warning::UnreachableCode { span: span(6, 1) }, "");
    assert_eq!(w3.message, "unreachable code");
    assert_eq!(w3.range.start.line, 5);
    assert_eq!(w3.range.start.character, 0);
    assert_eq!(w3.range.end.character, 1);
}

#[test]
fn test_parse_errors_come_before_warnings() {
    let backend = Backend::new(vec![]);
    let input = AnalysisInput {
        parse_errors: vec![
            ParseError { message: "first".to_string(), span: span(1, 1) },
            ParseError { message: "second".to_string(), span: span(2, 1) },
        ],
        typecheck: TypeCheckOutcome::Passed {
            warnings: vec![Warning::UnreachableCode { span: span(3, 1) }],
        },
    };
    let diagnostics = backend.check_document(&input);
    assert_eq!(diagnostics.len(), 3);
    assert_eq!(diagnostics[0].message, "first");
    assert_eq!(diagnostics[1].message, "second");
    assert_eq!(diagnostics[2].message, "unreachable code");
    assert_eq!(diagnostics[0].severity, Severity::Error);
    assert_eq!(diagnostics[2].severity, Severity::Warning);
}

#[test]
fn test_typecheck_fault_keeps_parse_diagnostics() {
    // an internal fault during type checking contributes nothing; the
    // parse-stage diagnostics already collected still come back
    let backend = Backend::new(vec![]);
    let input = AnalysisInput {
        parse_errors: vec![ParseError { message: "broken".to_string(), span: span(1, 1) }],
        typecheck: TypeCheckOutcome::Faulted,
    };
    let diagnostics = backend.check_document(&input);
    assert_eq!(diagnostics.len(), 1);
    assert_eq!(diagnostics[0].message, "broken");
}

#[test]
fn test_diagnostics_deterministic() {
    // the same analysis twice yields identical diagnostic lists
    let backend = Backend::new(vec![]);
    let make = || AnalysisInput {
        parse_errors: vec![ParseError { message: "oops".to_string(), span: span(2, 3) }],
        typecheck: TypeCheckOutcome::Failed {
            error: TypeError::CannotInferType { span: span(4, 1) },
            formatted: "Cannot infer type\nmore detail".to_string(),
        },
    };
    let a = backend.check_document(&make());
    let b = backend.check_document(&make());
    assert_eq!(a, b);
}

#[test]
fn test_type_error_first_line_strips_carriage_return() {
    let backend = Backend::new(vec![]);
    let d = backend.type_error_to_diagnostic(
        &TypeError::InvalidOperation { span: span(1, 1) },
        "Invalid operation\r\ndetail",
    );
    assert_eq!(d.message, "Invalid operation");
}
