use vstd::prelude::*;

use crate::codec::diagnostics::CodecDiagnostic;
use crate::dynamic_ui::source::DynamicUiSourceMetadata;
use crate::dynamic_ui::trust::DynamicUiTrustMetadata;
use crate::text::{opt_text, owned};

verus! {

#[derive(Clone, Copy, Debug, PartialEq, Eq, Structural)]
pub enum DynamicUiDiagnosticSeverity {
    Info,
    Warning,
    Error,
}

/// The lowercase name of a severity.
pub open spec fn dynamic_severity_text(severity: DynamicUiDiagnosticSeverity) -> Seq<char> {
    match severity {
        DynamicUiDiagnosticSeverity::Info => "info"@,
        DynamicUiDiagnosticSeverity::Warning => "warning"@,
        DynamicUiDiagnosticSeverity::Error => "error"@,
    }
}

impl DynamicUiDiagnosticSeverity {
    pub fn as_str(self) -> (r: &'static str)
        ensures
            r@ == dynamic_severity_text(self),
    {
        match self {
            DynamicUiDiagnosticSeverity::Info => "info",
            DynamicUiDiagnosticSeverity::Warning => "warning",
            DynamicUiDiagnosticSeverity::Error => "error",
        }
    }
}

#[derive(Clone, Debug, PartialEq, Eq)]
pub struct DynamicUiDiagnostic {
    pub code: String,
    pub path: String,
    pub severity: DynamicUiDiagnosticSeverity,
    pub source: DynamicUiSourceMetadata,
    pub trust: DynamicUiTrustMetadata,
    pub node_id: Option<String>,
    pub owner_pr: Option<String>,
    pub message: String,
}

/// A dynamic UI diagnostic as plain values.
pub struct DynamicUiDiagnosticView {
    pub code: Seq<char>,
    pub path: Seq<char>,
    pub severity: DynamicUiDiagnosticSeverity,
    pub source: DynamicUiSourceMetadata,
    pub trust: DynamicUiTrustMetadata,
    pub node_id: Option<Seq<char>>,
    pub owner_pr: Option<Seq<char>>,
    pub message: Seq<char>,
}

impl View for DynamicUiDiagnostic {
    type V = DynamicUiDiagnosticView;

    open spec fn view(&self) -> DynamicUiDiagnosticView {
        DynamicUiDiagnosticView {
            code: self.code@,
            path: self.path@,
            severity: self.severity,
            source: self.source,
            trust: self.trust,
            node_id: opt_text(self.node_id),
            owner_pr: opt_text(self.owner_pr),
            message: self.message@,
        }
    }
}

/// The error diagnostic with the given fields.
pub open spec fn dynamic_error(
    code: Seq<char>,
    path: Seq<char>,
    source: DynamicUiSourceMetadata,
    trust: DynamicUiTrustMetadata,
    node_id: Option<Seq<char>>,
    owner_pr: Option<Seq<char>>,
    message: Seq<char>,
) -> DynamicUiDiagnosticView {
    DynamicUiDiagnosticView {
        code,
        path,
        severity: DynamicUiDiagnosticSeverity::Error,
        source,
        trust,
        node_id,
        owner_pr,
        message,
    }
}

impl DynamicUiDiagnostic {
    pub fn error(
        code: &str,
        path: &str,
        source: DynamicUiSourceMetadata,
        trust: DynamicUiTrustMetadata,
        node_id: Option<String>,
        owner_pr: Option<String>,
        message: String,
    ) -> (r: Self)
        ensures
            r@ == dynamic_error(
                code@,
                path@,
                source,
                trust,
                opt_text(node_id),
                opt_text(owner_pr),
                message@,
            ),
    {
        DynamicUiDiagnostic {
            code: owned(code),
            path: owned(path),
            severity: DynamicUiDiagnosticSeverity::Error,
            source,
            trust,
            node_id,
            owner_pr,
            message,
        }
    }

    /// A codec diagnostic, in the context of a dynamic source.
    pub fn from_codec(
        diagnostic: CodecDiagnostic,
        source: DynamicUiSourceMetadata,
        trust: DynamicUiTrustMetadata,
        node_id: Option<String>,
        owner_pr: Option<String>,
    ) -> (r: Self)
        ensures
            r@ == dynamic_error(
                diagnostic.code@,
                diagnostic.path@,
                source,
                trust,
                opt_text(node_id),
                opt_text(owner_pr),
                diagnostic.message@,
            ),
    {
        DynamicUiDiagnostic {
            code: diagnostic.code,
            path: diagnostic.path,
            severity: DynamicUiDiagnosticSeverity::Error,
            source,
            trust,
            node_id,
            owner_pr,
            message: diagnostic.message,
        }
    }
}

pub type DynamicUiResult<T> = Result<T, DynamicUiDiagnostic>;

/// The outcome of a check, with the diagnostic taken by its view.
pub open spec fn dynamic_outcome(r: DynamicUiResult<()>) -> Result<(), DynamicUiDiagnosticView> {
    match r {
        Ok(_) => Ok(()),
        Err(d) => Err(d@),
    }
}

pub const DYNAMIC_UI_CAPABILITY_UNSUPPORTED: &'static str = "DYNAMIC_UI_CAPABILITY_UNSUPPORTED";

pub const DYNAMIC_UI_SCHEMA_PATH_INVALID: &'static str = "DYNAMIC_UI_SCHEMA_PATH_INVALID";

pub const DYNAMIC_UI_SOURCE_UNTRUSTED: &'static str = "DYNAMIC_UI_SOURCE_UNTRUSTED";

pub const DYNAMIC_UI_OWNER_PR_MISMATCH: &'static str = "DYNAMIC_UI_OWNER_PR_MISMATCH";

pub const DYNAMIC_UI_NODE_ID_DRIFT: &'static str = "DYNAMIC_UI_NODE_ID_DRIFT";

pub const DYNAMIC_UI_RUNTIME_NODE_UNKNOWN: &'static str = "DYNAMIC_UI_RUNTIME_NODE_UNKNOWN";

pub const DYNAMIC_UI_RUNTIME_COMPONENT_UNKNOWN: &'static str = "DYNAMIC_UI_RUNTIME_COMPONENT_UNKNOWN";

pub const DYNAMIC_UI_RUNTIME_FIXTURE_UNKNOWN: &'static str = "DYNAMIC_UI_RUNTIME_FIXTURE_UNKNOWN";

pub const DYNAMIC_UI_TRACE_DRIFT: &'static str = "DYNAMIC_UI_TRACE_DRIFT";

pub const DYNAMIC_UI_INVALID_DIAGNOSTIC_DRIFT: &'static str = "DYNAMIC_UI_INVALID_DIAGNOSTIC_DRIFT";

} // verus!
