use vstd::prelude::*;

use crate::text::owned;

verus! {

#[derive(Clone, Copy, Debug, PartialEq, Eq, Structural)]
pub enum DiagnosticSeverity {
    Info,
    Warning,
    Error,
}

/// The lowercase name of a severity.
pub open spec fn severity_text(severity: DiagnosticSeverity) -> Seq<char> {
    match severity {
        DiagnosticSeverity::Info => "info"@,
        DiagnosticSeverity::Warning => "warning"@,
        DiagnosticSeverity::Error => "error"@,
    }
}

impl DiagnosticSeverity {
    pub fn as_str(self) -> (r: &'static str)
        ensures
            r@ == severity_text(self),
    {
        match self {
            DiagnosticSeverity::Info => "info",
            DiagnosticSeverity::Warning => "warning",
            DiagnosticSeverity::Error => "error",
        }
    }
}

#[derive(Clone, Debug, PartialEq, Eq)]
pub struct CodecDiagnostic {
    pub code: String,
    pub path: String,
    pub severity: DiagnosticSeverity,
    pub message: String,
}

/// A codec diagnostic as plain texts.
pub struct CodecDiagnosticView {
    pub code: Seq<char>,
    pub path: Seq<char>,
    pub severity: DiagnosticSeverity,
    pub message: Seq<char>,
}

impl View for CodecDiagnostic {
    type V = CodecDiagnosticView;

    open spec fn view(&self) -> CodecDiagnosticView {
        CodecDiagnosticView {
            code: self.code@,
            path: self.path@,
            severity: self.severity,
            message: self.message@,
        }
    }
}

/// The error diagnostic with the given code, path and message.
pub open spec fn codec_error(code: Seq<char>, path: Seq<char>, message: Seq<char>) -> CodecDiagnosticView {
    CodecDiagnosticView { code, path, severity: DiagnosticSeverity::Error, message }
}

pub type CodecResult<T> = Result<T, CodecDiagnostic>;

/// The outcome of a check, with the diagnostic taken by its view.
pub open spec fn check_outcome(r: CodecResult<()>) -> Result<(), CodecDiagnosticView> {
    match r {
        Ok(_) => Ok(()),
        Err(d) => Err(d@),
    }
}

/// The first failure of two checks made in order.
pub open spec fn then_check<E>(first: Result<(), E>, second: Result<(), E>) -> Result<(), E> {
    match first {
        Ok(_) => second,
        Err(e) => Err(e),
    }
}

impl CodecDiagnostic {
    pub fn error(code: &str, path: &str, message: String) -> (r: Self)
        ensures
            r@ == codec_error(code@, path@, message@),
    {
        CodecDiagnostic {
            code: owned(code),
            path: owned(path),
            severity: DiagnosticSeverity::Error,
            message,
        }
    }
}

} // verus!
