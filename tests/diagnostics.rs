use homescript_ls::diagnostic::{
    to_diagnostics, ContractViolation, DiagnosticError, Position, Range, RemoteDiagnostic,
    Severity, Span, SyntaxError, DIAGNOSTIC_SOURCE,
};
use homescript_ls::diagnostic::severity_of_kind;

fn span(sl: usize, sc: usize, el: usize, ec: usize) -> Span {
    Span { start_line: sl, start_column: sc, end_line: el, end_column: ec }
}

fn lint(kind: u8, message: &str) -> RemoteDiagnostic {
    RemoteDiagnostic {
        syntax_error: None,
        diagnostic_error: Some(DiagnosticError { kind, message: message.to_string() }),
        span: span(1, 1, 1, 2),
    }
}

fn syntax(message: &str) -> RemoteDiagnostic {
    RemoteDiagnostic {
        syntax_error: Some(SyntaxError { message: message.to_string() }),
        diagnostic_error: None,
        span: span(1, 9, 1, 9),
    }
}

#[test]
fn span_converts_to_zero_based_end_exclusive_range() {
    let r = span(3, 5, 3, 9).to_range();
    assert_eq!(
        r,
        Range {
            start: Position { line: 2, character: 4 },
            end: Position { line: 2, character: 9 },
        }
    );
}

#[test]
fn span_over_several_lines_keeps_end_column() {
    let r = span(1, 1, 4, 1).to_range();
    assert_eq!(r.start, Position { line: 0, character: 0 });
    assert_eq!(r.end, Position { line: 3, character: 1 });
}

#[test]
fn span_with_zero_coordinate_is_not_representable() {
    assert!(!span(0, 1, 1, 1).is_representable());
    assert!(!span(1, 0, 1, 1).is_representable());
    assert!(span(1, 1, 1, 0).is_representable());
    assert!(span(4294967296, 4294967296, 4294967296, 4294967295).is_representable());
    assert!(!span(1, 1, 1, 4294967296).is_representable());
}

#[test]
fn kinds_map_in_ascending_severity() {
    assert_eq!(severity_of_kind(0), Ok(Severity::Hint));
    assert_eq!(severity_of_kind(1), Ok(Severity::Information));
    assert_eq!(severity_of_kind(2), Ok(Severity::Warning));
    assert_eq!(severity_of_kind(3), Ok(Severity::Error));
}

#[test]
fn unknown_kind_is_a_contract_violation() {
    assert_eq!(severity_of_kind(4), Err(ContractViolation::UnknownKind(4)));
    assert_eq!(severity_of_kind(255), Err(ContractViolation::UnknownKind(255)));
    assert_eq!(lint(7, "x").severity(), Err(ContractViolation::UnknownKind(7)));
}

#[test]
fn syntax_error_is_always_an_error() {
    assert_eq!(syntax("unexpected end").severity(), Ok(Severity::Error));
}

#[test]
fn record_with_neither_or_both_parts_is_illegal() {
    let neither = RemoteDiagnostic { syntax_error: None, diagnostic_error: None, span: span(1, 1, 1, 1) };
    assert_eq!(neither.severity(), Err(ContractViolation::IllegalShape));
    let mut both = syntax("a");
    both.diagnostic_error = Some(DiagnosticError { kind: 0, message: "b".to_string() });
    assert_eq!(both.severity(), Err(ContractViolation::IllegalShape));
}

#[test]
fn record_converts_to_protocol_diagnostic() {
    let mut r = lint(2, "unused variable");
    r.span = span(3, 5, 3, 9);
    let d = r.to_diagnostic().unwrap();
    assert_eq!(d.severity, Severity::Warning);
    assert_eq!(d.message, "unused variable");
    assert_eq!(d.source, DIAGNOSTIC_SOURCE);
    assert_eq!(d.source, "homescript-analyzer");
    assert_eq!(d.range.start, Position { line: 2, character: 4 });
    assert_eq!(d.range.end, Position { line: 2, character: 9 });
}

#[test]
fn record_with_zero_line_is_rejected() {
    let mut r = lint(1, "x");
    r.span = span(0, 1, 1, 1);
    assert_eq!(r.to_diagnostic().unwrap_err(), ContractViolation::SpanOutOfRange);
}

#[test]
fn records_convert_in_order() {
    let records = vec![lint(0, "first"), syntax("second"), lint(3, "third")];
    let ds = to_diagnostics(&records).unwrap();
    assert_eq!(ds.len(), 3);
    assert_eq!(ds[0].message, "first");
    assert_eq!(ds[0].severity, Severity::Hint);
    assert_eq!(ds[1].message, "second");
    assert_eq!(ds[1].severity, Severity::Error);
    assert_eq!(ds[2].severity, Severity::Error);
}

#[test]
fn empty_record_list_gives_no_diagnostics() {
    assert!(to_diagnostics(&vec![]).unwrap().is_empty());
}

#[test]
fn first_violation_is_reported() {
    let neither = RemoteDiagnostic { syntax_error: None, diagnostic_error: None, span: span(1, 1, 1, 1) };
    let records = vec![lint(1, "ok"), lint(9, "bad"), neither];
    assert_eq!(to_diagnostics(&records).unwrap_err(), ContractViolation::UnknownKind(9));
}
