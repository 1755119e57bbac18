use homescript_ls::bridge::{
    error_diagnostic, publish_lint_outcome, BridgeConfig, ContextOutcome, DocumentSnapshot,
    Step, LANGUAGE_ID,
};
use homescript_ls::diagnostic::{DiagnosticError, RemoteDiagnostic, Severity, Span, SyntaxError};
use homescript_ls::workspace::{
    manifest_location, manifest_location_of, manifest_path, ContextError, HomescriptMetadata,
};
use tower_lsp::lsp_types::Url;

fn snapshot(text: &str, version: i32) -> DocumentSnapshot {
    DocumentSnapshot::new("file:///home/u/proj/main.hms".to_string(), text.to_string(), version)
}

fn metadata() -> HomescriptMetadata {
    HomescriptMetadata { id: "main".to_string(), is_driver: false }
}

fn incomplete_expression_error() -> RemoteDiagnostic {
    RemoteDiagnostic {
        syntax_error: Some(SyntaxError { message: "expected expression, found end of file".to_string() }),
        diagnostic_error: None,
        span: Span { start_line: 1, start_column: 9, end_line: 1, end_column: 9 },
    }
}

#[test]
fn snapshot_carries_language_tag() {
    let s = snapshot("x", 1);
    assert_eq!(s.language_id, LANGUAGE_ID);
    assert_eq!(s.language_id, "homescript");
    assert_eq!(s.version, 1);
}

#[test]
fn change_takes_first_full_text() {
    let s = DocumentSnapshot::from_change(
        "file:///a.hms".to_string(),
        4,
        vec!["new text".to_string(), "ignored".to_string()],
    )
    .unwrap();
    assert_eq!(s.text, "new text");
    assert_eq!(s.version, 4);
    assert!(DocumentSnapshot::from_change("file:///a.hms".to_string(), 4, vec![]).is_none());
}

#[test]
fn resolved_context_leads_to_scoped_lint() {
    let s = snapshot("let x = 1", 2);
    let config = BridgeConfig { requires_context: true };
    match config.plan_lint(&s, ContextOutcome::Resolved(metadata())) {
        Step::Lint(l) => {
            assert_eq!(l.code, "let x = 1");
            let scope = l.scope.unwrap();
            assert_eq!(scope.id, "main");
            assert!(!scope.is_driver);
        }
        Step::Publish(_) => panic!("expected a lint call"),
    }
}

#[test]
fn context_free_deployment_lints_without_scope() {
    let s = snapshot("let x = 1", 2);
    let config = BridgeConfig { requires_context: false };
    match config.plan_lint(&s, ContextOutcome::NotRequired) {
        Step::Lint(l) => assert!(l.scope.is_none()),
        Step::Publish(_) => panic!("expected a lint call"),
    }
}

#[test]
fn incomplete_expression_publishes_an_error() {
    let s = snapshot("let x = ", 1);
    let config = BridgeConfig { requires_context: true };
    let request = match config.plan_lint(&s, ContextOutcome::Resolved(metadata())) {
        Step::Lint(l) => l,
        Step::Publish(_) => panic!("expected a lint call"),
    };
    assert_eq!(request.code, "let x = ");
    let p = publish_lint_outcome(&s, Ok(vec![incomplete_expression_error()]));
    assert!(!p.diagnostics.is_empty());
    assert!(p.diagnostics.iter().any(|d| d.severity == Severity::Error));
    assert_eq!(p.version, 1);
    assert_eq!(p.uri, "file:///home/u/proj/main.hms");
}

#[test]
fn missing_manifest_publishes_one_error_and_no_lint() {
    let s = snapshot("let x = 1", 7);
    let config = BridgeConfig { requires_context: true };
    let mut lint_calls = 0;
    let outcome = ContextOutcome::Failed(ContextError::ManifestMissing("No such file or directory (os error 2)".to_string()));
    match config.plan_lint(&s, outcome) {
        Step::Lint(_) => lint_calls += 1,
        Step::Publish(p) => {
            assert_eq!(p.uri, s.uri);
            assert_eq!(p.version, 7);
            assert_eq!(p.diagnostics.len(), 1);
            let d = &p.diagnostics[0];
            assert_eq!(d.severity, Severity::Error);
            assert_eq!(d.message, "index workspace: read .hms.toml");
            assert_eq!(d.range.start.line, 0);
            assert_eq!(d.range.start.character, 0);
            assert_eq!(d.range.end.line, 0);
            assert_eq!(d.range.end.character, 0);
        }
    }
    assert_eq!(lint_calls, 0);
}

#[test]
fn invalid_path_and_manifest_messages() {
    assert_eq!(ContextError::InvalidPath.message(), "index workspace: invalid document file path");
    assert_eq!(
        ContextError::ManifestInvalid("missing field `id`".to_string()).message(),
        "index workspace: invalid workspace file .hms.toml"
    );
    assert_eq!(
        ContextError::ManifestMissing("gone".to_string()).message(),
        "index workspace: read .hms.toml"
    );
}

#[test]
fn republishing_same_snapshot_is_identical() {
    let s = snapshot("let x = ", 3);
    let a = publish_lint_outcome(&s, Ok(vec![incomplete_expression_error()]));
    let b = publish_lint_outcome(&s, Ok(vec![incomplete_expression_error()]));
    assert_eq!(format!("{:?}", a), format!("{:?}", b));
}

#[test]
fn publications_carry_their_snapshot_version() {
    let older = snapshot("let x = ", 5);
    let newer = snapshot("let x = 1", 6);
    let p_new = publish_lint_outcome(&newer, Ok(vec![]));
    let p_old = publish_lint_outcome(&older, Ok(vec![incomplete_expression_error()]));
    assert_eq!(p_new.version, 6);
    assert_eq!(p_old.version, 5);
    let p_fail = publish_lint_outcome(&older, Err("timeout".to_string()));
    assert_eq!(p_fail.version, 5);
}

#[test]
fn failed_lint_call_publishes_an_error() {
    let s = snapshot("x", 1);
    let p = publish_lint_outcome(&s, Err("connection refused".to_string()));
    assert_eq!(p.diagnostics.len(), 1);
    assert_eq!(p.diagnostics[0].message, "lint: connection refused");
    assert_eq!(p.diagnostics[0].severity, Severity::Error);
}

#[test]
fn contract_violation_publishes_an_error() {
    let s = snapshot("x", 1);
    let bad = RemoteDiagnostic {
        syntax_error: None,
        diagnostic_error: Some(DiagnosticError { kind: 5, message: "?".to_string() }),
        span: Span { start_line: 1, start_column: 1, end_line: 1, end_column: 1 },
    };
    let p = publish_lint_outcome(&s, Ok(vec![incomplete_expression_error(), bad]));
    assert_eq!(p.diagnostics.len(), 1);
    assert_eq!(p.diagnostics[0].severity, Severity::Error);
    assert!(p.diagnostics[0].message.contains("unknown kind"));
}

#[test]
fn error_diagnostic_is_zero_width_at_start() {
    let d = error_diagnostic("boom".to_string());
    assert_eq!(d.message, "boom");
    assert_eq!(d.severity, Severity::Error);
    assert_eq!(d.source, "homescript-analyzer");
    assert_eq!(d.range.start, d.range.end);
    assert_eq!(d.range.start.line, 0);
}

#[test]
fn manifest_lies_beside_document() {
    assert_eq!(manifest_path("/home/u/proj/main.hms"), "/home/u/proj/.hms.toml");
    assert_eq!(manifest_path("/main.hms"), "/.hms.toml");
    assert_eq!(manifest_path("main.hms"), ".hms.toml");
    assert_eq!(manifest_path("/a/b/c/d.hms"), "/a/b/c/.hms.toml");
    assert_eq!(manifest_path("/a/b/"), "/a/.hms.toml");
    assert_eq!(manifest_path("/a/b//"), "/a/.hms.toml");
    assert_eq!(manifest_path("/"), "/.hms.toml");
    assert_eq!(manifest_path(""), ".hms.toml");
}

#[test]
fn manifest_location_follows_document_uri() {
    let uri = Url::parse("file:///home/u/proj/main.hms").unwrap();
    assert_eq!(manifest_location(&uri).unwrap(), "/home/u/proj/.hms.toml");
    let remote = Url::parse("file://example.com/proj/main.hms").unwrap();
    assert!(matches!(manifest_location(&remote), Err(ContextError::InvalidPath)));
}

#[test]
fn missing_document_path_is_invalid() {
    assert!(matches!(manifest_location_of(None), Err(ContextError::InvalidPath)));
    assert_eq!(manifest_location_of(Some("/p/x.hms".to_string())).unwrap(), "/p/.hms.toml");
}
