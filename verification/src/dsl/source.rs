//! Spans of DSL source that nodes are built from.

use vstd::prelude::*;

use crate::dsl::ids::SourceSpanId;
use crate::text::{decimal, owned, push_decimal};

verus! {

#[derive(Clone, Copy, Debug, PartialEq, Eq)]
pub struct DslSourceSpan {
    pub id: SourceSpanId,
    pub file: &'static str,
    pub line: u32,
    pub column: u32,
}

/// The `file:line:column` text of a span.
pub open spec fn span_token(file: Seq<char>, line: u32, column: u32) -> Seq<char> {
    file + ":"@ + decimal(line as nat) + ":"@ + decimal(column as nat)
}

impl DslSourceSpan {
    pub fn new(id: SourceSpanId, file: &'static str, line: u32, column: u32) -> (r: Self)
        ensures
            r == (DslSourceSpan { id, file, line, column }),
    {
        DslSourceSpan { id, file, line, column }
    }

    pub fn token(self) -> (r: String)
        ensures
            r@ == span_token(self.file@, self.line, self.column),
    {
        let mut out = owned(self.file);
        out.append(":");
        push_decimal(&mut out, self.line as u64);
        out.append(":");
        push_decimal(&mut out, self.column as u64);
        out
    }
}

/// A span with the given ID, file, line and column.
pub fn source_span(id: &'static str, file: &'static str, line: u32, column: u32) -> (r:
    DslSourceSpan)
    ensures
        r.id@ == id@,
        r.file == file,
        r.line == line,
        r.column == column,
{
    DslSourceSpan::new(SourceSpanId::new(id), file, line, column)
}

} // verus!
