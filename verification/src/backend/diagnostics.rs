use vstd::prelude::*;

verus! {

#[derive(Clone, Copy, Debug, PartialEq, Eq, Structural)]
pub enum BackendDiagnosticSeverity {
    Info,
    Warning,
    Error,
}

impl BackendDiagnosticSeverity {
    pub fn as_str(self) -> (r: &'static str)
        ensures
            r@ == match self {
                BackendDiagnosticSeverity::Info => "info"@,
                BackendDiagnosticSeverity::Warning => "warning"@,
                BackendDiagnosticSeverity::Error => "error"@,
            },
    {
        match self {
            BackendDiagnosticSeverity::Info => "info",
            BackendDiagnosticSeverity::Warning => "warning",
            BackendDiagnosticSeverity::Error => "error",
        }
    }
}

#[derive(Clone, Debug, PartialEq, Eq)]
pub struct BackendDiagnostic {
    pub code: &'static str,
    pub path: &'static str,
    pub severity: BackendDiagnosticSeverity,
    pub message: String,
}

impl BackendDiagnostic {
    pub fn error(code: &'static str, path: &'static str, message: String) -> (r: Self)
        ensures
            r.code@ == code@,
            r.path@ == path@,
            r.severity == BackendDiagnosticSeverity::Error,
            r.message@ == message@,
    {
        BackendDiagnostic { code, path, severity: BackendDiagnosticSeverity::Error, message }
    }
}

pub type BackendResult<T> = Result<T, BackendDiagnostic>;

/// A backend diagnostic as plain texts.
pub struct BackendDiagnosticView {
    pub code: Seq<char>,
    pub path: Seq<char>,
    pub severity: BackendDiagnosticSeverity,
    pub message: Seq<char>,
}

impl View for BackendDiagnostic {
    type V = BackendDiagnosticView;

    open spec fn view(&self) -> BackendDiagnosticView {
        BackendDiagnosticView {
            code: self.code@,
            path: self.path@,
            severity: self.severity,
            message: self.message@,
        }
    }
}

/// The error diagnostic with the given code, path and message.
pub open spec fn backend_error(code: Seq<char>, path: Seq<char>, message: Seq<char>) -> BackendDiagnosticView {
    BackendDiagnosticView { code, path, severity: BackendDiagnosticSeverity::Error, message }
}

/// The outcome of a check, with the diagnostic taken by its view.
pub open spec fn backend_outcome(r: BackendResult<()>) -> Result<(), BackendDiagnosticView> {
    match r {
        Ok(_) => Ok(()),
        Err(d) => Err(d@),
    }
}

} // verus!
