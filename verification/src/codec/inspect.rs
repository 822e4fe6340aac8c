//! The human-readable inspection summary of a fixture.

use vstd::prelude::*;

use crate::codec::json_debug::{FixtureEnvelope, FixtureEnvelopeView};
use crate::text::owned;

verus! {

/// The backend tag an inspection reports: the one asked for, else the
/// fixture's first tag, else `unknown`.
pub open spec fn selected_tag(f: FixtureEnvelopeView, backend_tag: Option<Seq<char>>) -> Seq<char> {
    match backend_tag {
        Some(tag) => tag,
        None => if f.fixture_tags.len() > 0 {
            f.fixture_tags[0]
        } else {
            "unknown"@
        },
    }
}

/// The owner PR an inspection reports: the fixture's first owner, else `unknown`.
pub open spec fn first_owner(f: FixtureEnvelopeView) -> Seq<char> {
    if f.owner_prs.len() > 0 {
        f.owner_prs[0]
    } else {
        "unknown"@
    }
}

/// The source span an inspection reports, or `<absent>`.
pub open spec fn span_text(f: FixtureEnvelopeView) -> Seq<char> {
    match f.source_span {
        Some(span) => span,
        None => "<absent>"@,
    }
}

/// The inspection summary: seven lines, joined by newlines.
pub open spec fn inspection_text(f: FixtureEnvelopeView, backend_tag: Option<Seq<char>>) -> Seq<char> {
    "schema_path: $.fixtures["@ + f.fixture_id + "]"@ + "\n"@ + "node_id: "@ + f.root_node_id
        + "\n"@ + "source_span: "@ + span_text(f) + "\n"@ + "owner_pr: "@ + first_owner(f) + "\n"@
        + "fixture_id: "@ + f.fixture_id + "\n"@ + "backend_tag: "@ + selected_tag(f, backend_tag)
        + "\n"@ + "surface: "@ + f.surface
}

/// The inspection summary, line by line: the fixture's schema path, root
/// node and source span; then the first of its owner PRs (`unknown` where it
/// lists none); its ID; the backend tag asked for, else its first fixture tag
/// (`unknown` where it has none); and its surface.
pub proof fn lemma_inspection_lines(f: FixtureEnvelopeView, backend_tag: Option<Seq<char>>)
    ensures
        ({
            let owner = if f.owner_prs.len() > 0 {
                f.owner_prs[0]
            } else {
                "unknown"@
            };
            let tag = if backend_tag is Some {
                backend_tag->0
            } else if f.fixture_tags.len() > 0 {
                f.fixture_tags[0]
            } else {
                "unknown"@
            };
            let span = if f.source_span is Some {
                f.source_span->0
            } else {
                "<absent>"@
            };
            inspection_text(f, backend_tag) == "schema_path: $.fixtures["@ + f.fixture_id + "]"@
                + "\n"@ + "node_id: "@ + f.root_node_id + "\n"@ + "source_span: "@ + span + "\n"@
                + "owner_pr: "@ + owner + "\n"@ + "fixture_id: "@ + f.fixture_id + "\n"@
                + "backend_tag: "@ + tag + "\n"@ + "surface: "@ + f.surface
        }),
{
}

/// The optional text of an optional string slice.
pub open spec fn opt_str_text(value: Option<&str>) -> Option<Seq<char>> {
    match value {
        Some(s) => Some(s@),
        None => None,
    }
}

/// Summarizes a fixture for inspection: its schema path, root node, source
/// span, first owner PR, fixture ID, backend tag and surface.
pub fn inspect_fixture(fixture: &FixtureEnvelope, backend_tag: Option<&str>) -> (r: String)
    ensures
        r@ == inspection_text(fixture@, opt_str_text(backend_tag)),
{
    let mut out = owned("schema_path: $.fixtures[");
    out.append(fixture.fixture_id.as_str());
    out.append("]");
    out.append("\n");
    out.append("node_id: ");
    out.append(fixture.ir_debug.root_node_id.as_str());
    out.append("\n");
    out.append("source_span: ");
    match &fixture.ir_debug.source_span {
        Some(span) => out.append(span.as_str()),
        None => out.append("<absent>"),
    }
    out.append("\n");
    out.append("owner_pr: ");
    if fixture.metadata.owner_prs.len() > 0 {
        out.append(fixture.metadata.owner_prs[0].as_str());
    } else {
        out.append("unknown");
    }
    out.append("\n");
    out.append("fixture_id: ");
    out.append(fixture.fixture_id.as_str());
    out.append("\n");
    out.append("backend_tag: ");
    match backend_tag {
        Some(tag) => out.append(tag),
        None => {
            if fixture.fixture_tags.len() > 0 {
                out.append(fixture.fixture_tags[0].as_str());
            } else {
                out.append("unknown");
            }
        },
    }
    out.append("\n");
    out.append("surface: ");
    out.append(fixture.surface.as_str());
    out
}

} // verus!
