//! Diagnostics of the DSL.

use vstd::prelude::*;

use crate::dsl::ids::SourceSpanId;

verus! {

pub const DSL_ATTRIBUTE_ELEMENT_MISMATCH: &'static str = "DSL_ATTRIBUTE_ELEMENT_MISMATCH";

pub const DSL_EVENT_ELEMENT_MISMATCH: &'static str = "DSL_EVENT_ELEMENT_MISMATCH";

pub const DSL_SOURCE_SPAN_REQUIRED: &'static str = "DSL_SOURCE_SPAN_REQUIRED";

pub const DSL_CONTRACT_ROW_UNSUPPORTED: &'static str = "DSL_CONTRACT_ROW_UNSUPPORTED";

pub const DSL_FIXTURE_INPUT_INVALID: &'static str = "DSL_FIXTURE_INPUT_INVALID";

pub const DSL_CANONICAL_IR_DRIFT: &'static str = "DSL_CANONICAL_IR_DRIFT";

pub const DSL_FORBIDDEN_DEPENDENCY: &'static str = "DSL_FORBIDDEN_DEPENDENCY";

#[derive(Clone, Copy, Debug, PartialEq, Eq, Structural)]
pub enum DslDiagnosticSeverity {
    Info,
    Warning,
    Error,
}

/// The lowercase name of a severity.
pub open spec fn dsl_severity_text(severity: DslDiagnosticSeverity) -> Seq<char> {
    match severity {
        DslDiagnosticSeverity::Info => "info"@,
        DslDiagnosticSeverity::Warning => "warning"@,
        DslDiagnosticSeverity::Error => "error"@,
    }
}

impl DslDiagnosticSeverity {
    pub fn as_str(self) -> (r: &'static str)
        ensures
            r@ == dsl_severity_text(self),
    {
        match self {
            DslDiagnosticSeverity::Info => "info",
            DslDiagnosticSeverity::Warning => "warning",
            DslDiagnosticSeverity::Error => "error",
        }
    }
}

#[derive(Clone, Debug, PartialEq, Eq)]
pub struct DslDiagnostic {
    pub code: &'static str,
    pub path: &'static str,
    pub severity: DslDiagnosticSeverity,
    pub message: String,
    pub source_span_id: Option<SourceSpanId>,
}

/// A DSL diagnostic as plain texts.
pub struct DslDiagnosticView {
    pub code: Seq<char>,
    pub path: Seq<char>,
    pub severity: DslDiagnosticSeverity,
    pub message: Seq<char>,
    pub source_span_id: Option<Seq<char>>,
}

/// The text of an optional source span ID.
pub open spec fn span_text(span: Option<SourceSpanId>) -> Option<Seq<char>> {
    match span {
        Some(id) => Some(id@),
        None => None,
    }
}

impl View for DslDiagnostic {
    type V = DslDiagnosticView;

    open spec fn view(&self) -> DslDiagnosticView {
        DslDiagnosticView {
            code: self.code@,
            path: self.path@,
            severity: self.severity,
            message: self.message@,
            source_span_id: span_text(self.source_span_id),
        }
    }
}

/// The error diagnostic with the given code, path, message and span.
pub open spec fn dsl_error(
    code: Seq<char>,
    path: Seq<char>,
    message: Seq<char>,
    source_span_id: Option<Seq<char>>,
) -> DslDiagnosticView {
    DslDiagnosticView { code, path, severity: DslDiagnosticSeverity::Error, message, source_span_id }
}

impl DslDiagnostic {
    pub fn error(
        code: &'static str,
        path: &'static str,
        message: String,
        source_span_id: Option<SourceSpanId>,
    ) -> (r: Self)
        ensures
            r@ == dsl_error(code@, path@, message@, span_text(source_span_id)),
    {
        DslDiagnostic { code, path, severity: DslDiagnosticSeverity::Error, message, source_span_id }
    }
}

pub type DslResult<T> = Result<T, DslDiagnostic>;

/// The outcome of a check, with the diagnostic taken by its view.
pub open spec fn dsl_outcome(r: DslResult<()>) -> Result<(), DslDiagnosticView> {
    match r {
        Ok(_) => Ok(()),
        Err(d) => Err(d@),
    }
}

} // verus!
