//! The protocol's diagnostic model and its conversion from the remote
//! linter's records.
use vstd::prelude::*;

verus! {

/// The tag that every published diagnostic carries as its source.
pub const DIAGNOSTIC_SOURCE: &'static str = "homescript-analyzer";

/// A 0-based position in a document, as the editor protocol counts it.
#[derive(Clone, Copy, Debug, PartialEq, Eq, Structural)]
pub struct Position {
    pub line: u32,
    pub character: u32,
}

/// A 0-based range whose end character is exclusive.
#[derive(Clone, Copy, Debug, PartialEq, Eq, Structural)]
pub struct Range {
    pub start: Position,
    pub end: Position,
}

/// The four severities of the editor protocol, from the most to the least severe.
#[derive(Clone, Copy, Debug, PartialEq, Eq, Structural)]
pub enum Severity {
    Error,
    Warning,
    Information,
    Hint,
}

/// A span as the remote linter reports it: 1-based lines and columns.
#[derive(Clone, Copy, Debug, PartialEq, Eq, Structural)]
pub struct Span {
    pub start_line: usize,
    pub start_column: usize,
    pub end_line: usize,
    pub end_column: usize,
}

/// The largest coordinate a protocol position can hold, plus one.
pub open spec fn position_bound() -> int {
    u32::MAX as int + 1
}

/// A span is representable when its 1-based start and end lines and its start
/// column are at least 1, and every converted coordinate fits a position.
pub open spec fn span_representable(s: Span) -> bool {
    &&& 1 <= s.start_line <= position_bound()
    &&& 1 <= s.start_column <= position_bound()
    &&& 1 <= s.end_line <= position_bound()
    &&& s.end_column < position_bound()
}

/// Start lines and columns move down by one; the end line moves down by one
/// and the end column, already exclusive, stays as it is.
pub open spec fn range_of_span(s: Span) -> Range {
    Range {
        start: Position {
            line: (s.start_line - 1) as u32,
            character: (s.start_column - 1) as u32,
        },
        end: Position { line: (s.end_line - 1) as u32, character: s.end_column as u32 },
    }
}

impl Span {
    /// Whether `to_range` can convert this span.
    pub fn is_representable(&self) -> (r: bool)
        ensures
            r == span_representable(*self),
    {
        let max: usize = u32::MAX as usize;
        1 <= self.start_line && self.start_line - 1 <= max && 1 <= self.start_column
            && self.start_column - 1 <= max && 1 <= self.end_line && self.end_line - 1 <= max
            && self.end_column <= max
    }

    /// Converts the 1-based span into the protocol's 0-based, end-exclusive range.
    pub fn to_range(&self) -> (r: Range)
        requires
            span_representable(*self),
        ensures
            r == range_of_span(*self),
            r.start.line == self.start_line - 1,
            r.start.character == self.start_column - 1,
            r.end.line == self.end_line - 1,
            r.end.character == self.end_column,
    {
        Range {
            start: Position {
                line: (self.start_line - 1) as u32,
                character: (self.start_column - 1) as u32,
            },
            end: Position { line: (self.end_line - 1) as u32, character: self.end_column as u32 },
        }
    }
}


/// The syntax-error part of a remote record.
#[derive(Clone, Debug)]
pub struct SyntaxError {
    pub message: String,
}

/// The lint part of a remote record; `kind` ranks it from hint (0) to error (3).
#[derive(Clone, Debug)]
pub struct DiagnosticError {
    pub kind: u8,
    pub message: String,
}

/// One issue as the remote linter returns it: exactly one of the two parts is
/// expected to be present.
#[derive(Clone, Debug)]
pub struct RemoteDiagnostic {
    pub syntax_error: Option<SyntaxError>,
    pub diagnostic_error: Option<DiagnosticError>,
    pub span: Span,
}

/// A record that this adapter cannot classify: the remote side broke its contract.
#[derive(Clone, Copy, Debug, PartialEq, Eq, Structural)]
pub enum ContractViolation {
    /// A lint part whose kind is none of the four known ones.
    UnknownKind(u8),
    /// A record with neither or both parts.
    IllegalShape,
    /// A span with a zero coordinate or one that no protocol position can hold.
    SpanOutOfRange,
}

/// A diagnostic in the protocol's model.
#[derive(Clone, Debug)]
pub struct Diagnostic {
    pub range: Range,
    pub severity: Severity,
    pub source: String,
    pub message: String,
}

/// What a diagnostic is, with its strings seen as character sequences.
pub struct DiagnosticView {
    pub range: Range,
    pub severity: Severity,
    pub source: Seq<char>,
    pub message: Seq<char>,
}

impl View for Diagnostic {
    type V = DiagnosticView;

    open spec fn view(&self) -> DiagnosticView {
        DiagnosticView {
            range: self.range,
            severity: self.severity,
            source: self.source@,
            message: self.message@,
        }
    }
}

/// The rank of a severity, from hint (0) up to error (3).
pub open spec fn severity_rank(s: Severity) -> int {
    match s {
        Severity::Hint => 0,
        Severity::Information => 1,
        Severity::Warning => 2,
        Severity::Error => 3,
    }
}

/// The severity of a lint kind, in ascending order 0 to 3; other kinds have none.
pub open spec fn kind_severity(kind: u8) -> Option<Severity> {
    if kind == 0 {
        Some(Severity::Hint)
    } else if kind == 1 {
        Some(Severity::Information)
    } else if kind == 2 {
        Some(Severity::Warning)
    } else if kind == 3 {
        Some(Severity::Error)
    } else {
        None
    }
}

/// A syntax error is always an error; a lint record takes the severity of
/// its kind; any other shape is a contract violation.
pub open spec fn record_severity(r: RemoteDiagnostic) -> Result<Severity, ContractViolation> {
    match (r.syntax_error, r.diagnostic_error) {
        (Some(_), None) => Ok(Severity::Error),
        (None, Some(d)) => match kind_severity(d.kind) {
            Some(s) => Ok(s),
            None => Err(ContractViolation::UnknownKind(d.kind)),
        },
        _ => Err(ContractViolation::IllegalShape),
    }
}

/// The message of a well-shaped record.
pub open spec fn record_message(r: RemoteDiagnostic) -> Seq<char> {
    match (r.syntax_error, r.diagnostic_error) {
        (Some(s), None) => s.message@,
        (None, Some(d)) => d.message@,
        _ => Seq::empty(),
    }
}

/// The protocol diagnostic for a remote record, or why there is none.
pub open spec fn converted(r: RemoteDiagnostic) -> Result<DiagnosticView, ContractViolation> {
    match record_severity(r) {
        Err(e) => Err(e),
        Ok(sev) => if span_representable(r.span) {
            Ok(
                DiagnosticView {
                    range: range_of_span(r.span),
                    severity: sev,
                    source: DIAGNOSTIC_SOURCE@,
                    message: record_message(r),
                },
            )
        } else {
            Err(ContractViolation::SpanOutOfRange)
        },
    }
}

/// The protocol diagnostics of a list of records in order, or the violation
/// of the first record that has one.
pub open spec fn converted_all(rs: Seq<RemoteDiagnostic>) -> Result<
    Seq<DiagnosticView>,
    ContractViolation,
>
    decreases rs.len(),
{
    if rs.len() == 0 {
        Ok(Seq::empty())
    } else {
        match converted_all(rs.drop_last()) {
            Err(e) => Err(e),
            Ok(ds) => match converted(rs.last()) {
                Err(e) => Err(e),
                Ok(d) => Ok(ds.push(d)),
            },
        }
    }
}

/// The severity that a lint kind stands for.
pub fn severity_of_kind(kind: u8) -> (r: Result<Severity, ContractViolation>)
    ensures
        r == (match kind_severity(kind) {
            Some(s) => Ok(s),
            None => Err(ContractViolation::UnknownKind(kind)),
        }),
{
    match kind {
        0 => Ok(Severity::Hint),
        1 => Ok(Severity::Information),
        2 => Ok(Severity::Warning),
        3 => Ok(Severity::Error),
        _ => Err(ContractViolation::UnknownKind(kind)),
    }
}

impl RemoteDiagnostic {
    /// The protocol severity of this record.
    pub fn severity(&self) -> (r: Result<Severity, ContractViolation>)
        ensures
            r == record_severity(*self),
    {
        match (&self.syntax_error, &self.diagnostic_error) {
            (Some(_), None) => Ok(Severity::Error),
            (None, Some(d)) => severity_of_kind(d.kind),
            _ => Err(ContractViolation::IllegalShape),
        }
    }

    /// The protocol diagnostic for this record.
    pub fn to_diagnostic(&self) -> (r: Result<Diagnostic, ContractViolation>)
        ensures
            match r {
                Ok(d) => converted(*self) == Ok::<DiagnosticView, ContractViolation>(d@),
                Err(e) => converted(*self) == Err::<DiagnosticView, ContractViolation>(e),
            },
    {
        let severity = match self.severity() {
            Ok(s) => s,
            Err(e) => return Err(e),
        };
        if !self.span.is_representable() {
            return Err(ContractViolation::SpanOutOfRange);
        }
        let message = match (&self.syntax_error, &self.diagnostic_error) {
            (Some(s), None) => s.message.clone(),
            (None, Some(d)) => d.message.clone(),
            _ => String::new(),
        };
        Ok(
            Diagnostic {
                range: self.span.to_range(),
                severity,
                source: String::from_str(DIAGNOSTIC_SOURCE),
                message,
            },
        )
    }
}

/// Converts every record, in order; fails on the first record that cannot
/// be classified.
pub fn to_diagnostics(records: &Vec<RemoteDiagnostic>) -> (r: Result<
    Vec<Diagnostic>,
    ContractViolation,
>)
    ensures
        match r {
            Ok(ds) => converted_all(records@) == Ok::<Seq<DiagnosticView>, ContractViolation>(
                ds@.map_values(|d: Diagnostic| d@),
            ),
            Err(e) => converted_all(records@) == Err::<Seq<DiagnosticView>, ContractViolation>(e),
        },
{
    let mut out: Vec<Diagnostic> = Vec::new();
    let mut i: usize = 0;
    assert(records@.subrange(0, 0) =~= Seq::<RemoteDiagnostic>::empty());
    assert(out@.map_values(|d: Diagnostic| d@) =~= Seq::<DiagnosticView>::empty());
    while i < records.len()
        invariant
            i <= records@.len(),
            converted_all(records@.subrange(0, i as int)) == Ok::<
                Seq<DiagnosticView>,
                ContractViolation,
            >(out@.map_values(|d: Diagnostic| d@)),
        decreases records@.len() - i,
    {
        let ghost prefix = records@.subrange(0, i + 1);
        assert(prefix.drop_last() =~= records@.subrange(0, i as int));
        assert(prefix.last() == records@[i as int]);
        match records[i].to_diagnostic() {
            Ok(d) => {
                let ghost before = out@;
                out.push(d);
                assert(out@.map_values(|d: Diagnostic| d@) =~= before.map_values(
                    |d: Diagnostic| d@,
                ).push(d@));
            },
            Err(e) => {
                proof {
                    lemma_failure_persists(records@, i as int + 1);
                }
                return Err(e);
            },
        }
        i = i + 1;
    }
    assert(records@.subrange(0, i as int) =~= records@);
    Ok(out)
}

/// Once a prefix fails to convert, every longer prefix fails the same way.
proof fn lemma_failure_persists(rs: Seq<RemoteDiagnostic>, k: int)
    requires
        0 <= k <= rs.len(),
        converted_all(rs.subrange(0, k)) is Err,
    ensures
        converted_all(rs) == converted_all(rs.subrange(0, k)),
    decreases rs.len() - k,
{
    if k < rs.len() {
        let next = rs.subrange(0, k + 1);
        assert(next.drop_last() =~= rs.subrange(0, k));
        lemma_failure_persists(rs, k + 1);
    } else {
        assert(rs.subrange(0, k) =~= rs);
    }
}

/// The four known lint kinds all have a severity, each ranked as its kind,
/// so that a higher kind never maps to a lower severity; any other kind has
/// none.
pub proof fn lemma_kind_severity_ordered(a: u8, b: u8)
    ensures
        a <= 3 ==> (kind_severity(a) is Some && severity_rank(kind_severity(a)->Some_0) == a),
        a <= b <= 3 ==> severity_rank(kind_severity(a)->Some_0) <= severity_rank(
            kind_severity(b)->Some_0,
        ),
        a > 3 ==> kind_severity(a) is None,
{
}

/// A record that holds only a syntax error is an error.
pub proof fn lemma_syntax_error_is_error(r: RemoteDiagnostic)
    requires
        r.syntax_error is Some,
        r.diagnostic_error is None,
    ensures
        record_severity(r) == Ok::<Severity, ContractViolation>(Severity::Error),
{
}

/// When every record converts, the list converts to one diagnostic per
/// record, in order.
pub proof fn lemma_converted_all_ok(rs: Seq<RemoteDiagnostic>)
    requires
        forall|i: int| 0 <= i < rs.len() ==> #[trigger] converted(rs[i]) is Ok,
    ensures
        converted_all(rs) is Ok,
        converted_all(rs)->Ok_0.len() == rs.len(),
        forall|i: int|
            0 <= i < rs.len() ==> converted_all(rs)->Ok_0[i] == #[trigger] converted(rs[i])->Ok_0,
    decreases rs.len(),
{
    if rs.len() > 0 {
        let front = rs.drop_last();
        assert forall|i: int| 0 <= i < front.len() implies #[trigger] converted(front[i]) is Ok by {
            assert(front[i] == rs[i]);
        }
        lemma_converted_all_ok(front);
        assert(converted(rs[rs.len() - 1]) is Ok);
        assert forall|i: int| 0 <= i < rs.len() implies converted_all(rs)->Ok_0[i]
            == #[trigger] converted(rs[i])->Ok_0 by {
            if i < rs.len() - 1 {
                assert(front[i] == rs[i]);
            }
        }
    }
}

} // verus!
