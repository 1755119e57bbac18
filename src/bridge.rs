//! The decisions taken for each document event: whether to lint, with what
//! scope, and which diagnostics to publish with which version.
use vstd::prelude::*;
use crate::diagnostic::{
    converted, converted_all, lemma_converted_all_ok, range_of_span, record_message,
    record_severity, ContractViolation, Diagnostic, DiagnosticView, Position, Range,
    RemoteDiagnostic, Severity, to_diagnostics, DIAGNOSTIC_SOURCE,
};
use crate::workspace::{context_message, ContextError, HomescriptMetadata};

verus! {

/// The language tag given to every document.
pub const LANGUAGE_ID: &'static str = "homescript";

/// The full text of a document at one version.
#[derive(Clone, Debug)]
pub struct DocumentSnapshot {
    pub uri: String,
    pub text: String,
    pub version: i32,
    pub language_id: String,
}

/// A snapshot with its strings seen as character sequences.
pub struct SnapshotView {
    pub uri: Seq<char>,
    pub text: Seq<char>,
    pub version: i32,
    pub language_id: Seq<char>,
}

impl View for DocumentSnapshot {
    type V = SnapshotView;

    open spec fn view(&self) -> SnapshotView {
        SnapshotView {
            uri: self.uri@,
            text: self.text@,
            version: self.version,
            language_id: self.language_id@,
        }
    }
}

/// The diagnostics to show for one document, replacing earlier ones.
#[derive(Clone, Debug)]
pub struct Publish {
    pub uri: String,
    pub diagnostics: Vec<Diagnostic>,
    pub version: i32,
}

/// A publication with its parts seen as mathematical values.
pub struct PublishView {
    pub uri: Seq<char>,
    pub diagnostics: Seq<DiagnosticView>,
    pub version: i32,
}

impl View for Publish {
    type V = PublishView;

    open spec fn view(&self) -> PublishView {
        PublishView {
            uri: self.uri@,
            diagnostics: self.diagnostics@.map_values(|d: Diagnostic| d@),
            version: self.version,
        }
    }
}

/// A call of the remote linter: the code and, where the deployment needs it,
/// the module it belongs to.
#[derive(Clone, Debug)]
pub struct LintRequest {
    pub code: String,
    pub scope: Option<HomescriptMetadata>,
}

/// How the workspace context of a document came out.
#[derive(Clone, Debug)]
pub enum ContextOutcome {
    /// The deployment lints without workspace context.
    NotRequired,
    Resolved(HomescriptMetadata),
    Failed(ContextError),
}

/// What to do next for a document event.
#[derive(Clone, Debug)]
pub enum Step {
    Lint(LintRequest),
    Publish(Publish),
}

/// Whether the remote linter of this deployment needs the workspace context.
#[derive(Clone, Copy, Debug, PartialEq, Eq, Structural)]
pub struct BridgeConfig {
    pub requires_context: bool,
}

/// A lint outcome with its parts seen as mathematical values.
pub open spec fn outcome_view(o: Result<Vec<RemoteDiagnostic>, String>) -> Result<
    Seq<RemoteDiagnostic>,
    Seq<char>,
> {
    match o {
        Ok(rs) => Ok(rs@),
        Err(why) => Err(why@),
    }
}

/// The zero-width error at the document's first character that stands for a
/// failure to produce real diagnostics.
pub open spec fn error_view(message: Seq<char>) -> DiagnosticView {
    DiagnosticView {
        range: Range {
            start: Position { line: 0, character: 0 },
            end: Position { line: 0, character: 0 },
        },
        severity: Severity::Error,
        source: DIAGNOSTIC_SOURCE@,
        message,
    }
}

/// The message for a record that broke the linter's contract.
pub open spec fn violation_message(v: ContractViolation) -> Seq<char> {
    match v {
        ContractViolation::UnknownKind(_) => "internal error: the linter reported a diagnostic of unknown kind"@,
        ContractViolation::IllegalShape => "internal error: the linter reported a diagnostic of illegal shape"@,
        ContractViolation::SpanOutOfRange => "internal error: the linter reported a diagnostic with an invalid span"@,
    }
}

/// The message for a failed call of the remote linter.
pub open spec fn lint_failure_message(why: Seq<char>) -> Seq<char> {
    "lint: "@ + why
}

/// The diagnostics published after a lint call: the converted records, or a
/// single error that says why there are none.
pub open spec fn outcome_diagnostics(o: Result<Seq<RemoteDiagnostic>, Seq<char>>) -> Seq<
    DiagnosticView,
> {
    match o {
        Err(why) => seq![error_view(lint_failure_message(why))],
        Ok(rs) => match converted_all(rs) {
            Ok(ds) => ds,
            Err(v) => seq![error_view(violation_message(v))],
        },
    }
}

/// What is published for a snapshot once the lint call came back with `o`.
pub open spec fn lint_publish(s: SnapshotView, o: Result<Seq<RemoteDiagnostic>, Seq<char>>) -> PublishView {
    PublishView { uri: s.uri, diagnostics: outcome_diagnostics(o), version: s.version }
}

/// What is published for a snapshot whose workspace context failed with `e`.
pub open spec fn context_publish(s: SnapshotView, e: ContextError) -> PublishView {
    PublishView { uri: s.uri, diagnostics: seq![error_view(context_message(e))], version: s.version }
}

impl DocumentSnapshot {
    /// The snapshot of a document as the editor sent it on opening or changing it.
    pub fn new(uri: String, text: String, version: i32) -> (r: DocumentSnapshot)
        ensures
            r.uri == uri,
            r.text == text,
            r.version == version,
            r.language_id@ == LANGUAGE_ID@,
    {
        DocumentSnapshot { uri, text, version, language_id: String::from_str(LANGUAGE_ID) }
    }

    /// The snapshot after a change event: the first full-text change is the
    /// new text; an event with no change gives none.
    pub fn from_change(uri: String, version: i32, changes: Vec<String>) -> (r: Option<
        DocumentSnapshot,
    >)
        ensures
            changes@.len() == 0 <==> r is None,
            r matches Some(s) ==> s.uri == uri && s.text == changes@[0] && s.version == version
                && s.language_id@ == LANGUAGE_ID@,
    {
        let mut changes = changes;
        if changes.len() == 0 {
            return None;
        }
        let text = changes.swap_remove(0);
        Some(DocumentSnapshot::new(uri, text, version))
    }
}

/// The zero-width error diagnostic at the document's start.
pub fn error_diagnostic(message: String) -> (r: Diagnostic)
    ensures
        r@ == error_view(message@),
{
    Diagnostic {
        range: Range {
            start: Position { line: 0, character: 0 },
            end: Position { line: 0, character: 0 },
        },
        severity: Severity::Error,
        source: String::from_str(DIAGNOSTIC_SOURCE),
        message,
    }
}

/// Publishes the single error `message` for `snapshot`, tagged with its version.
fn publish_error(snapshot: &DocumentSnapshot, message: String) -> (r: Publish)
    ensures
        r@ == (PublishView {
            uri: snapshot.uri@,
            diagnostics: seq![error_view(message@)],
            version: snapshot.version,
        }),
{
    let mut diagnostics: Vec<Diagnostic> = Vec::new();
    diagnostics.push(error_diagnostic(message));
    let r = Publish { uri: snapshot.uri.clone(), diagnostics, version: snapshot.version };
    assert(r@.diagnostics =~= seq![error_view(message@)]);
    r
}

impl ContractViolation {
    /// The message this violation is reported with.
    pub fn message(&self) -> (r: String)
        ensures
            r@ == violation_message(*self),
    {
        match self {
            ContractViolation::UnknownKind(_) => String::from_str(
                "internal error: the linter reported a diagnostic of unknown kind",
            ),
            ContractViolation::IllegalShape => String::from_str(
                "internal error: the linter reported a diagnostic of illegal shape",
            ),
            ContractViolation::SpanOutOfRange => String::from_str(
                "internal error: the linter reported a diagnostic with an invalid span",
            ),
        }
    }
}

impl BridgeConfig {
    /// Decides, for a document event, whether to call the linter or to publish
    /// the failure to resolve the workspace context; no lint call follows a
    /// failed resolution.
    pub fn plan_lint(&self, snapshot: &DocumentSnapshot, context: ContextOutcome) -> (r: Step)
        ensures
            match context {
                ContextOutcome::Failed(e) => r matches Step::Publish(p) && p@ == context_publish(
                    snapshot@,
                    e,
                ),
                ContextOutcome::Resolved(m) => r matches Step::Lint(l) && l.code@ == snapshot.text@
                    && l.scope == Some(m),
                ContextOutcome::NotRequired => r matches Step::Lint(l) && l.code@ == snapshot.text@
                    && l.scope is None,
            },
    {
        match context {
            ContextOutcome::Failed(e) => Step::Publish(publish_error(snapshot, e.message())),
            ContextOutcome::Resolved(m) => Step::Lint(
                LintRequest { code: snapshot.text.clone(), scope: Some(m) },
            ),
            ContextOutcome::NotRequired => Step::Lint(
                LintRequest { code: snapshot.text.clone(), scope: None },
            ),
        }
    }
}

/// The publication for `snapshot` once the linter answered with `outcome`:
/// every record converted in order, or a single error diagnostic when the
/// call failed or a record broke the linter's contract.
pub fn publish_lint_outcome(
    snapshot: &DocumentSnapshot,
    outcome: Result<Vec<RemoteDiagnostic>, String>,
) -> (r: Publish)
    ensures
        r@ == lint_publish(snapshot@, outcome_view(outcome)),
{
    match outcome {
        Err(why) => {
            let mut message = String::from_str("lint: ");
            message.append(why.as_str());
            publish_error(snapshot, message)
        },
        Ok(records) => match to_diagnostics(&records) {
            Ok(diagnostics) => Publish {
                uri: snapshot.uri.clone(),
                diagnostics,
                version: snapshot.version,
            },
            Err(v) => publish_error(snapshot, v.message()),
        },
    }
}

/// Publishing twice for the same snapshot and the same lint outcome gives
/// the same diagnostics, uri and version.
pub proof fn lemma_republish_identical(
    a: SnapshotView,
    b: SnapshotView,
    o: Result<Seq<RemoteDiagnostic>, Seq<char>>,
)
    requires
        a == b,
    ensures
        lint_publish(a, o) == lint_publish(b, o),
        forall|e: ContextError| #[trigger] context_publish(a, e) == context_publish(b, e),
{
}

/// Whatever the order in which document events are handled, each publication
/// carries the version of the snapshot that it was made for.
pub proof fn lemma_publish_versions(
    events: Seq<(SnapshotView, Result<Seq<RemoteDiagnostic>, Seq<char>>)>,
    failures: Seq<(SnapshotView, ContextError)>,
)
    ensures
        forall|i: int|
            0 <= i < events.len() ==> #[trigger] lint_publish(events[i].0, events[i].1).version
                == events[i].0.version,
        forall|i: int|
            0 <= i < failures.len() ==> #[trigger] context_publish(failures[i].0, failures[i].1).version
                == failures[i].0.version,
{
}

/// When the linter answers with records that are all well-formed and whose
/// spans fit protocol positions, the publication holds one diagnostic per
/// record, in order: the span's start lines and columns shifted down by one,
/// its end line shifted down by one and its end column kept, the record's
/// severity (an error for every syntax-error record) and its message.
pub proof fn lemma_publish_follows_records(s: SnapshotView, rs: Seq<RemoteDiagnostic>)
    requires
        forall|i: int| 0 <= i < rs.len() ==> #[trigger] converted(rs[i]) is Ok,
    ensures
        lint_publish(s, Ok(rs)).diagnostics.len() == rs.len(),
        forall|i: int|
            0 <= i < rs.len() ==> {
                let d = #[trigger] lint_publish(s, Ok(rs)).diagnostics[i];
                &&& d.range == range_of_span(rs[i].span)
                &&& d.range.start.line == rs[i].span.start_line - 1
                &&& d.range.start.character == rs[i].span.start_column - 1
                &&& d.range.end.line == rs[i].span.end_line - 1
                &&& d.range.end.character == rs[i].span.end_column
                &&& record_severity(rs[i]) == Ok::<Severity, ContractViolation>(d.severity)
                &&& d.message == record_message(rs[i])
                &&& (rs[i].syntax_error is Some && rs[i].diagnostic_error is None) ==> d.severity
                    == Severity::Error
            },
{
    lemma_converted_all_ok(rs);
    assert forall|i: int| 0 <= i < rs.len() implies {
        let d = #[trigger] lint_publish(s, Ok(rs)).diagnostics[i];
        &&& d.range == range_of_span(rs[i].span)
        &&& d.range.start.line == rs[i].span.start_line - 1
        &&& d.range.start.character == rs[i].span.start_column - 1
        &&& d.range.end.line == rs[i].span.end_line - 1
        &&& d.range.end.character == rs[i].span.end_column
        &&& record_severity(rs[i]) == Ok::<Severity, ContractViolation>(d.severity)
        &&& d.message == record_message(rs[i])
        &&& (rs[i].syntax_error is Some && rs[i].diagnostic_error is None) ==> d.severity
            == Severity::Error
    } by {
        assert(converted(rs[i]) is Ok);
    }
}

} // verus!
