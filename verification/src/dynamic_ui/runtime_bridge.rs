//! The bridge from validated dynamic fixtures to runtime document
//! declarations, and the trace snapshot of backend operations.

use vstd::prelude::*;

use crate::backend::capabilities::capability_text;
use crate::backend::operations::{family_capability, family_text, operation_family, BackendOperation};
use crate::codec::json_debug::{FixtureEnvelope, FixtureEnvelopeView};
use crate::dynamic_ui::diagnostics::{
    dynamic_error, DynamicUiDiagnostic, DynamicUiDiagnosticView, DynamicUiResult,
    DYNAMIC_UI_RUNTIME_COMPONENT_UNKNOWN, DYNAMIC_UI_RUNTIME_FIXTURE_UNKNOWN,
    DYNAMIC_UI_RUNTIME_NODE_UNKNOWN,
};
use crate::dynamic_ui::source::DynamicUiSourceMetadata;
use crate::dynamic_ui::trust::DynamicUiTrustMetadata;
use crate::dynamic_ui::validator::owner_context;
use crate::text::{debug_quoted, debug_text, join, joined, owned, same_text, texts};

verus! {

/// The root node IDs the runtime bridge knows.
pub const KNOWN_ROOT_NODE_IDS: [&'static str; 22] = [
    "node.schema_versioning.root",
    "node.component_identity.root",
    "node.tree_structure.root",
    "node.element_taxonomy.root",
    "node.layout.root",
    "node.styling.root",
    "node.text.root",
    "node.assets.root",
    "node.events_gestures.root",
    "node.actions_state.root",
    "node.bindings_expressions.root",
    "node.animations.root",
    "node.native_modules.root",
    "node.native_views.root",
    "node.accessibility.root",
    "node.hot_reload.root",
    "node.diagnostics.root",
    "node.web_dom.root",
    "node.png_backend.root",
    "node.dynamic_ui.root",
    "node.ts_compatibility.root",
    "node.build_graph.root",
];

/// The component IDs the runtime bridge knows.
pub const KNOWN_COMPONENT_IDS: [&'static str; 22] = [
    "component.schema_versioning",
    "component.component_identity",
    "component.tree_structure",
    "component.element_taxonomy",
    "component.layout",
    "component.styling",
    "component.text",
    "component.assets",
    "component.events_gestures",
    "component.actions_state",
    "component.bindings_expressions",
    "component.animations",
    "component.native_modules",
    "component.native_views",
    "component.accessibility",
    "component.hot_reload",
    "component.diagnostics",
    "component.web_dom",
    "component.png_backend",
    "component.dynamic_ui",
    "component.ts_compatibility",
    "component.build_graph",
];

/// The fixture IDs the runtime bridge knows.
pub const KNOWN_FIXTURE_IDS: [&'static str; 22] = [
    "contract.schema_versioning.v1",
    "contract.component_identity.v1",
    "contract.tree_structure.v1",
    "contract.element_taxonomy.v1",
    "contract.layout.v1",
    "contract.styling.v1",
    "contract.text.v1",
    "contract.assets.v1",
    "contract.events_gestures.v1",
    "contract.actions_state.v1",
    "contract.bindings_expressions.v1",
    "contract.animations.v1",
    "contract.native_modules.v1",
    "contract.native_views.v1",
    "contract.accessibility.v1",
    "contract.hot_reload.v1",
    "contract.diagnostics.v1",
    "contract.web_dom.v1",
    "contract.png_backend.v1",
    "contract.dynamic_ui.v1",
    "contract.ts_compatibility.v1",
    "contract.build_graph.v1",
];

/// The texts of a table of identifiers.
pub open spec fn table_texts(table: Seq<&'static str>) -> Seq<Seq<char>> {
    table.map_values(|s: &'static str| s@)
}

/// The declaration of a runtime document that the bridge builds for a
/// validated fixture: the fixture, component and root node it is known by,
/// and its nodes (the root, a view destroyed with its subtree).
#[derive(Clone, Debug, PartialEq, Eq)]
pub struct RuntimeDocumentDeclaration {
    pub fixture_id: &'static str,
    pub component_id: &'static str,
    pub root_node_id: &'static str,
    pub node_ids: Vec<&'static str>,
}

fn lookup(table: &[&'static str], value: &str) -> (r: Option<&'static str>)
    ensures
        match r {
            Some(id) => id@ == value@ && table_texts(table@).contains(value@),
            None => !table_texts(table@).contains(value@),
        },
{
    let mut i: usize = 0;
    while i < table.len()
        invariant
            i <= table@.len(),
            forall|j: int| 0 <= j < i ==> table_texts(table@)[j] != value@,
        decreases table@.len() - i,
    {
        if same_text(table[i], value) {
            assert(table_texts(table@)[i as int] == value@);
            return Some(table[i]);
        }
        i = i + 1;
    }
    None
}

/// The check that the bridge knows the fixture's root node, component and
/// fixture ID, in that order.
pub open spec fn runtime_bridge_check(
    f: FixtureEnvelopeView,
    source: DynamicUiSourceMetadata,
    trust: DynamicUiTrustMetadata,
) -> Result<(), DynamicUiDiagnosticView> {
    let node = Some(f.root_node_id);
    let owners = owner_context(f);
    if !table_texts(KNOWN_ROOT_NODE_IDS@).contains(f.root_node_id) {
        Err(
            dynamic_error(
                DYNAMIC_UI_RUNTIME_NODE_UNKNOWN@,
                "$.ir_debug.root_node_id"@,
                source,
                trust,
                node,
                owners,
                "runtime bridge does not know node "@ + debug_text(f.root_node_id),
            ),
        )
    } else if !table_texts(KNOWN_COMPONENT_IDS@).contains(f.component_id) {
        Err(
            dynamic_error(
                DYNAMIC_UI_RUNTIME_COMPONENT_UNKNOWN@,
                "$.ir_debug.component_id"@,
                source,
                trust,
                node,
                owners,
                "runtime bridge does not know component "@ + debug_text(f.component_id),
            ),
        )
    } else if !table_texts(KNOWN_FIXTURE_IDS@).contains(f.fixture_id) {
        Err(
            dynamic_error(
                DYNAMIC_UI_RUNTIME_FIXTURE_UNKNOWN@,
                "$.fixture_id"@,
                source,
                trust,
                node,
                owners,
                "runtime bridge does not know fixture "@ + debug_text(f.fixture_id),
            ),
        )
    } else {
        Ok(())
    }
}

fn unknown(
    code: &str,
    path: &str,
    what: &str,
    value: &str,
    fixture: &FixtureEnvelope,
    source: DynamicUiSourceMetadata,
    trust: DynamicUiTrustMetadata,
) -> (r: DynamicUiDiagnostic)
    ensures
        r@ == dynamic_error(
            code@,
            path@,
            source,
            trust,
            Some(fixture@.root_node_id),
            owner_context(fixture@),
            what@ + debug_text(value@),
        ),
{
    let mut message = owned(what);
    message.append(debug_quoted(value).as_str());
    DynamicUiDiagnostic::error(
        code,
        path,
        source,
        trust,
        Some(fixture.ir_debug.root_node_id.clone()),
        Some(join(&fixture.metadata.owner_prs, ",")),
        message,
    )
}

/// The runtime document declaration for a fixture whose root node,
/// component and fixture ID the bridge knows.
pub fn runtime_document_from_fixture(
    fixture: &FixtureEnvelope,
    source: DynamicUiSourceMetadata,
    trust: DynamicUiTrustMetadata,
) -> (r: DynamicUiResult<RuntimeDocumentDeclaration>)
    ensures
        match runtime_bridge_check(fixture@, source, trust) {
            Err(e) => r matches Err(d) && d@ == e,
            Ok(_) => r matches Ok(doc) && doc.fixture_id@ == fixture@.fixture_id
                && doc.component_id@ == fixture@.component_id && doc.root_node_id@
                == fixture@.root_node_id && doc.node_ids@.len() == 1 && doc.node_ids@[0]@
                == fixture@.root_node_id,
        },
{
    let root = match lookup(&KNOWN_ROOT_NODE_IDS, fixture.ir_debug.root_node_id.as_str()) {
        Some(id) => id,
        None => {
            return Err(
                unknown(
                    DYNAMIC_UI_RUNTIME_NODE_UNKNOWN,
                    "$.ir_debug.root_node_id",
                    "runtime bridge does not know node ",
                    fixture.ir_debug.root_node_id.as_str(),
                    fixture,
                    source,
                    trust,
                ),
            );
        },
    };
    let component = match lookup(&KNOWN_COMPONENT_IDS, fixture.ir_debug.component_id.as_str()) {
        Some(id) => id,
        None => {
            return Err(
                unknown(
                    DYNAMIC_UI_RUNTIME_COMPONENT_UNKNOWN,
                    "$.ir_debug.component_id",
                    "runtime bridge does not know component ",
                    fixture.ir_debug.component_id.as_str(),
                    fixture,
                    source,
                    trust,
                ),
            );
        },
    };
    let fixture_id = match lookup(&KNOWN_FIXTURE_IDS, fixture.fixture_id.as_str()) {
        Some(id) => id,
        None => {
            return Err(
                unknown(
                    DYNAMIC_UI_RUNTIME_FIXTURE_UNKNOWN,
                    "$.fixture_id",
                    "runtime bridge does not know fixture ",
                    fixture.fixture_id.as_str(),
                    fixture,
                    source,
                    trust,
                ),
            );
        },
    };
    let mut node_ids: Vec<&'static str> = Vec::new();
    node_ids.push(root);
    Ok(
        RuntimeDocumentDeclaration {
            fixture_id,
            component_id: component,
            root_node_id: root,
            node_ids,
        },
    )
}

/// The trace snapshot line of an operation.
pub open spec fn trace_line(operation: BackendOperation) -> Seq<char> {
    "- family="@ + family_text(operation_family(operation)) + " capability="@ + capability_text(
        family_capability(operation_family(operation)),
    )
}

/// The trace snapshot of the operations a fixture produced: a header, the
/// fixture, then a line per operation, each line ending in a newline.
pub open spec fn trace_snapshot_text(fixture_id: Seq<char>, operations: Seq<BackendOperation>) -> Seq<
    char,
> {
    joined(
        seq!["dynamic_ui_trace_v1"@, "fixture="@ + fixture_id, "operations:"@] + operations.map_values(
            |op: BackendOperation| trace_line(op),
        ),
        "\n"@,
    ) + "\n"@
}

/// The trace snapshot of the backend operations produced for a fixture.
pub fn format_backend_snapshot(fixture_id: &str, operations: &[BackendOperation]) -> (r: String)
    ensures
        r@ == trace_snapshot_text(fixture_id@, operations@),
{
    let ghost op_lines = operations@.map_values(|op: BackendOperation| trace_line(op));
    let mut lines: Vec<String> = Vec::new();
    lines.push(owned("dynamic_ui_trace_v1"));
    let mut fixture_line = owned("fixture=");
    fixture_line.append(fixture_id);
    lines.push(fixture_line);
    lines.push(owned("operations:"));
    let ghost head = seq!["dynamic_ui_trace_v1"@, "fixture="@ + fixture_id@, "operations:"@];
    assert(texts(lines@) =~= head);
    let mut i: usize = 0;
    while i < operations.len()
        invariant
            i <= operations@.len(),
            op_lines == operations@.map_values(|op: BackendOperation| trace_line(op)),
            texts(lines@) == head + op_lines.take(i as int),
        decreases operations@.len() - i,
    {
        let family = operations[i].family();
        let mut line = owned("- family=");
        line.append(family.as_str());
        line.append(" capability=");
        line.append(family.required_capability().as_str());
        let ghost before = texts(lines@);
        let ghost added = line@;
        lines.push(line);
        proof {
            assert(added == op_lines[i as int]);
            assert(texts(lines@) =~= before.push(added));
            assert(op_lines.take(i + 1) =~= op_lines.take(i as int).push(op_lines[i as int]));
            assert(texts(lines@) =~= head + op_lines.take(i + 1));
        }
        i = i + 1;
    }
    assert(op_lines.take(operations@.len() as int) =~= op_lines);
    let mut out = join(&lines, "\n");
    out.append("\n");
    out
}

} // verus!
