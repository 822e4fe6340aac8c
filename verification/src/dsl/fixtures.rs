//! The contract fixtures that the DSL produces: one document per contract
//! row, checked against the row's fixture metadata, and the canonical
//! snapshot of all of them.

use vstd::prelude::*;

use crate::codec::diagnostics::then_check;
use crate::codec::validator::{
    expected_fixture_id, expected_fixture_id_text, expected_path_text,
    expected_serialized_artifact_path,
};
use crate::dsl::diagnostics::{
    dsl_error, dsl_outcome, DslDiagnostic, DslDiagnosticView, DslResult, DSL_CANONICAL_IR_DRIFT,
    DSL_CONTRACT_ROW_UNSUPPORTED, DSL_FIXTURE_INPUT_INVALID,
};
use crate::dsl::tree::{
    component_id, component_text, dynamic_ui_payload, dynamic_ui_surface, events_payload,
    events_surface, root_node_id, tree_structure_payload, tree_structure_surface,
    root_node_text, snapshot_line_text, surface_text, ts_compatibility_payload,
    ts_compatibility_surface, DslDocument, DslDocumentView, DslSurfacePayload,
};
use crate::text::{
    copy_texts, debug_quoted, debug_text, is_blank, is_blank_text, owned, same_text, texts,
};

verus! {

pub const REQUIRED_CONTRACT_ROW_IDS: [&'static str; 22] = [
    "schema_versioning",
    "component_identity",
    "tree_structure",
    "element_taxonomy",
    "layout",
    "styling",
    "text",
    "assets",
    "events_gestures",
    "actions_state",
    "bindings_expressions",
    "animations",
    "native_modules",
    "native_views",
    "accessibility",
    "hot_reload",
    "diagnostics",
    "web_dom",
    "png_backend",
    "dynamic_ui",
    "ts_compatibility",
    "build_graph",
];

/// The fixture metadata of one contract row, from which the DSL builds the
/// row's document.
#[derive(Clone, Debug, PartialEq, Eq)]
pub struct DslFixtureInput {
    pub fixture_id: String,
    pub contract_row_id: String,
    pub surface: String,
    pub fixture_tags: Vec<String>,
    pub platform_targets: Vec<String>,
    pub owner_prs: Vec<String>,
    pub proof_prs: Vec<String>,
    pub serialized_artifact_path: String,
    pub coverage_tokens: Vec<String>,
}

/// A fixture input as plain texts.
pub struct DslFixtureInputView {
    pub fixture_id: Seq<char>,
    pub contract_row_id: Seq<char>,
    pub surface: Seq<char>,
    pub fixture_tags: Seq<Seq<char>>,
    pub platform_targets: Seq<Seq<char>>,
    pub owner_prs: Seq<Seq<char>>,
    pub proof_prs: Seq<Seq<char>>,
    pub serialized_artifact_path: Seq<char>,
    pub coverage_tokens: Seq<Seq<char>>,
}

impl View for DslFixtureInput {
    type V = DslFixtureInputView;

    open spec fn view(&self) -> DslFixtureInputView {
        DslFixtureInputView {
            fixture_id: self.fixture_id@,
            contract_row_id: self.contract_row_id@,
            surface: self.surface@,
            fixture_tags: texts(self.fixture_tags@),
            platform_targets: texts(self.platform_targets@),
            owner_prs: texts(self.owner_prs@),
            proof_prs: texts(self.proof_prs@),
            serialized_artifact_path: self.serialized_artifact_path@,
            coverage_tokens: texts(self.coverage_tokens@),
        }
    }
}

/// The check that a text field is not blank.
pub open spec fn text_required_check(name: Seq<char>, path: Seq<char>, value: Seq<char>) -> Result<
    (),
    DslDiagnosticView,
> {
    if is_blank_text(value) {
        Err(dsl_error(DSL_FIXTURE_INPUT_INVALID@, path, name + " is required"@, None))
    } else {
        Ok(())
    }
}

/// The check that a list field is not empty.
pub open spec fn items_required_check(name: Seq<char>, path: Seq<char>, len: nat) -> Result<
    (),
    DslDiagnosticView,
> {
    if len == 0 {
        Err(dsl_error(DSL_FIXTURE_INPUT_INVALID@, path, name + " are required"@, None))
    } else {
        Ok(())
    }
}

/// The check that a field holds the value its contract row determines.
pub open spec fn derived_value_check(
    what: Seq<char>,
    path: Seq<char>,
    actual: Seq<char>,
    expected: Seq<char>,
) -> Result<(), DslDiagnosticView> {
    if actual == expected {
        Ok(())
    } else {
        Err(
            dsl_error(
                DSL_FIXTURE_INPUT_INVALID@,
                path,
                what + " drift: "@ + debug_text(actual) + " != "@ + debug_text(expected),
                None,
            ),
        )
    }
}

/// The checks of a fixture input, in order: its text fields are not blank,
/// its lists are not empty, and its fixture ID and serialized artifact path
/// are the ones its contract row determines.
pub open spec fn fixture_input_check(i: DslFixtureInputView) -> Result<(), DslDiagnosticView> {
    then_check(
        text_required_check("fixture_id"@, "$.fixture_id"@, i.fixture_id),
        then_check(
            text_required_check("contract_row_id"@, "$.contract_row_id"@, i.contract_row_id),
            then_check(
                text_required_check("surface"@, "$.surface"@, i.surface),
                then_check(
                    text_required_check(
                        "serialized_artifact_path"@,
                        "$.metadata.serialized_artifact_path"@,
                        i.serialized_artifact_path,
                    ),
                    fixture_lists_check(i),
                ),
            ),
        ),
    )
}

/// The list and identity checks of a fixture input.
pub open spec fn fixture_lists_check(i: DslFixtureInputView) -> Result<(), DslDiagnosticView> {
    then_check(
        items_required_check("fixture tags"@, "$.fixture_tags"@, i.fixture_tags.len()),
        then_check(
            items_required_check("platform targets"@, "$.platform_targets"@, i.platform_targets.len()),
            then_check(
                items_required_check("owner PRs"@, "$.metadata.owner_prs"@, i.owner_prs.len()),
                then_check(
                    items_required_check("proof PRs"@, "$.metadata.proof_prs"@, i.proof_prs.len()),
                    then_check(
                        items_required_check(
                            "coverage tokens"@,
                            "$.ir_debug.coverage_tokens"@,
                            i.coverage_tokens.len(),
                        ),
                        fixture_identity_check(i),
                    ),
                ),
            ),
        ),
    )
}

/// The checks of a fixture input's fixture ID and serialized artifact path.
pub open spec fn fixture_identity_check(i: DslFixtureInputView) -> Result<(), DslDiagnosticView> {
    then_check(
        derived_value_check(
            "fixture ID"@,
            "$.fixture_id"@,
            i.fixture_id,
            expected_fixture_id_text(i.contract_row_id),
        ),
        derived_value_check(
            "serialized artifact path"@,
            "$.metadata.serialized_artifact_path"@,
            i.serialized_artifact_path,
            expected_path_text(i.contract_row_id),
        ),
    )
}

fn require_text(name: &str, path: &'static str, value: &str) -> (r: DslResult<()>)
    ensures
        dsl_outcome(r) == text_required_check(name@, path@, value@),
{
    if is_blank(value) {
        let mut message = owned(name);
        message.append(" is required");
        return Err(DslDiagnostic::error(DSL_FIXTURE_INPUT_INVALID, path, message, None));
    }
    Ok(())
}

fn require_items(name: &str, path: &'static str, len: usize) -> (r: DslResult<()>)
    ensures
        dsl_outcome(r) == items_required_check(name@, path@, len as nat),
{
    if len == 0 {
        let mut message = owned(name);
        message.append(" are required");
        return Err(DslDiagnostic::error(DSL_FIXTURE_INPUT_INVALID, path, message, None));
    }
    Ok(())
}

fn require_derived(what: &str, path: &'static str, actual: &str, expected: &str) -> (r: DslResult<
    (),
>)
    ensures
        dsl_outcome(r) == derived_value_check(what@, path@, actual@, expected@),
{
    if same_text(actual, expected) {
        return Ok(());
    }
    let mut message = owned(what);
    message.append(" drift: ");
    message.append(debug_quoted(actual).as_str());
    message.append(" != ");
    message.append(debug_quoted(expected).as_str());
    Err(DslDiagnostic::error(DSL_FIXTURE_INPUT_INVALID, path, message, None))
}

fn validate_fixture_input(input: &DslFixtureInput) -> (r: DslResult<()>)
    ensures
        dsl_outcome(r) == fixture_input_check(input@),
{
    let r = require_text("fixture_id", "$.fixture_id", input.fixture_id.as_str());
    if r.is_err() {
        return r;
    }
    let r = require_text("contract_row_id", "$.contract_row_id", input.contract_row_id.as_str());
    if r.is_err() {
        return r;
    }
    let r = require_text("surface", "$.surface", input.surface.as_str());
    if r.is_err() {
        return r;
    }
    let r = require_text(
        "serialized_artifact_path",
        "$.metadata.serialized_artifact_path",
        input.serialized_artifact_path.as_str(),
    );
    if r.is_err() {
        return r;
    }
    let r = require_items("fixture tags", "$.fixture_tags", input.fixture_tags.len());
    if r.is_err() {
        return r;
    }
    let r = require_items("platform targets", "$.platform_targets", input.platform_targets.len());
    if r.is_err() {
        return r;
    }
    let r = require_items("owner PRs", "$.metadata.owner_prs", input.owner_prs.len());
    if r.is_err() {
        return r;
    }
    let r = require_items("proof PRs", "$.metadata.proof_prs", input.proof_prs.len());
    if r.is_err() {
        return r;
    }
    let r = require_items(
        "coverage tokens",
        "$.ir_debug.coverage_tokens",
        input.coverage_tokens.len(),
    );
    if r.is_err() {
        return r;
    }
    let expected_id = expected_fixture_id(input.contract_row_id.as_str());
    let r = require_derived(
        "fixture ID",
        "$.fixture_id",
        input.fixture_id.as_str(),
        expected_id.as_str(),
    );
    if r.is_err() {
        return r;
    }
    let expected_path = expected_serialized_artifact_path(input.contract_row_id.as_str());
    require_derived(
        "serialized artifact path",
        "$.metadata.serialized_artifact_path",
        input.serialized_artifact_path.as_str(),
        expected_path.as_str(),
    )
}

/// The payload surface of a contract row, if the DSL covers the row.
pub open spec fn surface_for_row(id: Seq<char>) -> Option<DslSurfacePayload> {
    if id == "schema_versioning"@ {
        Some(DslSurfacePayload::SchemaVersioning)
    } else if id == "component_identity"@ {
        Some(DslSurfacePayload::ComponentIdentity)
    } else if id == "tree_structure"@ {
        Some(DslSurfacePayload::TreeStructure(tree_structure_surface()))
    } else if id == "element_taxonomy"@ {
        Some(DslSurfacePayload::ElementTaxonomy)
    } else if id == "layout"@ {
        Some(DslSurfacePayload::Layout)
    } else if id == "styling"@ {
        Some(DslSurfacePayload::Styling)
    } else if id == "text"@ {
        Some(DslSurfacePayload::Text)
    } else if id == "assets"@ {
        Some(DslSurfacePayload::Assets)
    } else if id == "events_gestures"@ {
        Some(DslSurfacePayload::EventsGestures(events_surface()))
    } else if id == "actions_state"@ {
        Some(DslSurfacePayload::ActionsState)
    } else if id == "bindings_expressions"@ {
        Some(DslSurfacePayload::BindingsExpressions)
    } else if id == "animations"@ {
        Some(DslSurfacePayload::Animations)
    } else if id == "native_modules"@ {
        Some(DslSurfacePayload::NativeModules)
    } else if id == "native_views"@ {
        Some(DslSurfacePayload::NativeViews)
    } else if id == "accessibility"@ {
        Some(DslSurfacePayload::Accessibility)
    } else if id == "hot_reload"@ {
        Some(DslSurfacePayload::HotReload)
    } else if id == "diagnostics"@ {
        Some(DslSurfacePayload::Diagnostics)
    } else if id == "web_dom"@ {
        Some(DslSurfacePayload::WebDom)
    } else if id == "png_backend"@ {
        Some(DslSurfacePayload::PngBackend)
    } else if id == "dynamic_ui"@ {
        Some(DslSurfacePayload::DynamicUi(dynamic_ui_surface()))
    } else if id == "ts_compatibility"@ {
        Some(DslSurfacePayload::TsCompatibility(ts_compatibility_surface()))
    } else if id == "build_graph"@ {
        Some(DslSurfacePayload::BuildGraph)
    } else {
        None
    }
}

/// The payload for a contract row, or the diagnostic for a row the DSL does
/// not cover.
pub open spec fn payload_check(id: Seq<char>) -> Result<DslSurfacePayload, DslDiagnosticView> {
    match surface_for_row(id) {
        Some(p) => Ok(p),
        None => Err(
            dsl_error(
                DSL_CONTRACT_ROW_UNSUPPORTED@,
                "$.contract_row_id"@,
                "unsupported contract row "@ + id,
                None,
            ),
        ),
    }
}

/// The outcome of a payload lookup, with the diagnostic taken by its view.
pub open spec fn payload_outcome(r: DslResult<DslSurfacePayload>) -> Result<
    DslSurfacePayload,
    DslDiagnosticView,
> {
    match r {
        Ok(p) => Ok(p),
        Err(d) => Err(d@),
    }
}

/// The payload for a contract row; a row the DSL does not cover is refused.
pub fn payload_for_contract_row(contract_row_id: &str) -> (r: DslResult<DslSurfacePayload>)
    ensures
        payload_outcome(r) == payload_check(contract_row_id@),
{
    if same_text(contract_row_id, "schema_versioning") {
        return Ok(DslSurfacePayload::SchemaVersioning);
    }
    if same_text(contract_row_id, "component_identity") {
        return Ok(DslSurfacePayload::ComponentIdentity);
    }
    if same_text(contract_row_id, "tree_structure") {
        return Ok(tree_structure_payload());
    }
    if same_text(contract_row_id, "element_taxonomy") {
        return Ok(DslSurfacePayload::ElementTaxonomy);
    }
    if same_text(contract_row_id, "layout") {
        return Ok(DslSurfacePayload::Layout);
    }
    if same_text(contract_row_id, "styling") {
        return Ok(DslSurfacePayload::Styling);
    }
    if same_text(contract_row_id, "text") {
        return Ok(DslSurfacePayload::Text);
    }
    if same_text(contract_row_id, "assets") {
        return Ok(DslSurfacePayload::Assets);
    }
    if same_text(contract_row_id, "events_gestures") {
        return Ok(events_payload());
    }
    if same_text(contract_row_id, "actions_state") {
        return Ok(DslSurfacePayload::ActionsState);
    }
    if same_text(contract_row_id, "bindings_expressions") {
        return Ok(DslSurfacePayload::BindingsExpressions);
    }
    if same_text(contract_row_id, "animations") {
        return Ok(DslSurfacePayload::Animations);
    }
    if same_text(contract_row_id, "native_modules") {
        return Ok(DslSurfacePayload::NativeModules);
    }
    if same_text(contract_row_id, "native_views") {
        return Ok(DslSurfacePayload::NativeViews);
    }
    if same_text(contract_row_id, "accessibility") {
        return Ok(DslSurfacePayload::Accessibility);
    }
    if same_text(contract_row_id, "hot_reload") {
        return Ok(DslSurfacePayload::HotReload);
    }
    if same_text(contract_row_id, "diagnostics") {
        return Ok(DslSurfacePayload::Diagnostics);
    }
    if same_text(contract_row_id, "web_dom") {
        return Ok(DslSurfacePayload::WebDom);
    }
    if same_text(contract_row_id, "png_backend") {
        return Ok(DslSurfacePayload::PngBackend);
    }
    if same_text(contract_row_id, "dynamic_ui") {
        return Ok(DslSurfacePayload::DynamicUi(dynamic_ui_payload()));
    }
    if same_text(contract_row_id, "ts_compatibility") {
        return Ok(DslSurfacePayload::TsCompatibility(ts_compatibility_payload()));
    }
    if same_text(contract_row_id, "build_graph") {
        return Ok(DslSurfacePayload::BuildGraph);
    }
    let mut message = owned("unsupported contract row ");
    message.append(contract_row_id);
    Err(DslDiagnostic::error(DSL_CONTRACT_ROW_UNSUPPORTED, "$.contract_row_id", message, None))
}

/// The document for a fixture input whose checks passed.
pub open spec fn fixture_document(i: DslFixtureInputView, payload: DslSurfacePayload) -> DslDocumentView {
    DslDocumentView {
        fixture_id: i.fixture_id,
        contract_row_id: i.contract_row_id,
        surface: i.surface,
        fixture_tags: i.fixture_tags,
        platform_targets: i.platform_targets,
        owner_prs: i.owner_prs,
        proof_prs: i.proof_prs,
        serialized_artifact_path: i.serialized_artifact_path,
        root_node_id: root_node_text(i.contract_row_id),
        component_id: component_text(i.contract_row_id),
        coverage_tokens: i.coverage_tokens,
        source_span: None,
        payload,
    }
}

/// The document for a fixture input: its checks come first, then the
/// payload of its contract row.
pub open spec fn contract_fixture_result(i: DslFixtureInputView) -> Result<
    DslDocumentView,
    DslDiagnosticView,
> {
    match fixture_input_check(i) {
        Err(e) => Err(e),
        Ok(_) => match payload_check(i.contract_row_id) {
            Err(e) => Err(e),
            Ok(p) => Ok(fixture_document(i, p)),
        },
    }
}

/// The outcome of building a document, with both sides taken by their views.
pub open spec fn document_outcome(r: DslResult<DslDocument>) -> Result<
    DslDocumentView,
    DslDiagnosticView,
> {
    match r {
        Ok(d) => Ok(d@),
        Err(e) => Err(e@),
    }
}

fn build_document(input: &DslFixtureInput) -> (r: DslResult<DslDocument>)
    ensures
        document_outcome(r) == contract_fixture_result(input@),
{
    let checked = validate_fixture_input(input);
    if let Err(d) = checked {
        return Err(d);
    }
    let payload = payload_for_contract_row(input.contract_row_id.as_str());
    match payload {
        Err(d) => Err(d),
        Ok(payload) => {
            let row = input.contract_row_id.as_str();
            Ok(
                DslDocument {
                    root_node_id: root_node_id(row),
                    component_id: component_id(row),
                    source_span: None,
                    fixture_id: owned(input.fixture_id.as_str()),
                    contract_row_id: owned(row),
                    surface: owned(input.surface.as_str()),
                    fixture_tags: copy_texts(input.fixture_tags.as_slice()),
                    platform_targets: copy_texts(input.platform_targets.as_slice()),
                    owner_prs: copy_texts(input.owner_prs.as_slice()),
                    proof_prs: copy_texts(input.proof_prs.as_slice()),
                    serialized_artifact_path: owned(input.serialized_artifact_path.as_str()),
                    coverage_tokens: copy_texts(input.coverage_tokens.as_slice()),
                    payload,
                },
            )
        },
    }
}

/// The document for one contract row. It is built only from an input whose
/// fixture ID and artifact path are the ones its row determines, and its
/// payload covers exactly that row.
pub fn contract_fixture(input: DslFixtureInput) -> (r: DslResult<DslDocument>)
    ensures
        document_outcome(r) == contract_fixture_result(input@),
        r is Ok <==> fixture_input_accepted(input@),
        r matches Ok(d) ==> {
            &&& surface_text(d.payload) == d.contract_row_id@
            &&& d.fixture_id@ == expected_fixture_id_text(d.contract_row_id@)
            &&& d.serialized_artifact_path@ == expected_path_text(d.contract_row_id@)
            &&& d.root_node_id@ == root_node_text(d.contract_row_id@)
            &&& d.component_id@ == component_text(d.contract_row_id@)
        },
{
    let r = build_document(&input);
    proof {
        lemma_surface_for_row(input@.contract_row_id);
        lemma_contract_fixture_accepts_exactly(input@);
    }
    r
}

/// A payload found for a contract row covers that row.
pub proof fn lemma_surface_for_row(id: Seq<char>)
    ensures
        surface_for_row(id) matches Some(p) ==> surface_text(p) == id,
{
}

/// The views of a list of fixture inputs.
pub open spec fn input_views(inputs: Seq<DslFixtureInput>) -> Seq<DslFixtureInputView> {
    inputs.map_values(|i: DslFixtureInput| i@)
}

/// The snapshot's header followed by one line per input, each on a line of
/// its own, or the diagnostic of the first input that fails.
pub open spec fn snapshot_lines(inputs: Seq<DslFixtureInputView>) -> Result<
    Seq<char>,
    DslDiagnosticView,
>
    decreases inputs.len(),
{
    if inputs.len() == 0 {
        Ok("dsl_canonical_ir_v1"@)
    } else {
        match snapshot_lines(inputs.drop_last()) {
            Err(e) => Err(e),
            Ok(body) => match contract_fixture_result(inputs.last()) {
                Err(e) => Err(e),
                Ok(d) => Ok(body + "\n"@ + snapshot_line_text(d)),
            },
        }
    }
}

/// The canonical snapshot of the inputs' documents, ended by a newline.
pub open spec fn canonical_snapshot_result(inputs: Seq<DslFixtureInputView>) -> Result<
    Seq<char>,
    DslDiagnosticView,
> {
    match snapshot_lines(inputs) {
        Ok(body) => Ok(body + "\n"@),
        Err(e) => Err(e),
    }
}

/// The check of an expected snapshot against the inputs' canonical snapshot.
pub open spec fn snapshot_check(inputs: Seq<DslFixtureInputView>, expected: Seq<char>) -> Result<
    (),
    DslDiagnosticView,
> {
    match canonical_snapshot_result(inputs) {
        Err(e) => Err(e),
        Ok(actual) => if actual == expected {
            Ok(())
        } else {
            Err(
                dsl_error(
                    DSL_CANONICAL_IR_DRIFT@,
                    "$.dsl_canonical_ir"@,
                    "DSL canonical IR snapshot drift"@,
                    None,
                ),
            )
        },
    }
}

/// Once a prefix of the inputs fails, the whole list fails the same way.
proof fn lemma_snapshot_prefix_fails(inputs: Seq<DslFixtureInputView>, k: int)
    requires
        0 <= k <= inputs.len(),
        snapshot_lines(inputs.take(k)) is Err,
    ensures
        snapshot_lines(inputs) == snapshot_lines(inputs.take(k)),
    decreases inputs.len(),
{
    if k == inputs.len() {
        assert(inputs.take(k) =~= inputs);
    } else {
        assert(inputs.drop_last().take(k) =~= inputs.take(k));
        lemma_snapshot_prefix_fails(inputs.drop_last(), k);
    }
}

pub fn canonical_snapshot(inputs: Vec<DslFixtureInput>) -> (r: DslResult<String>)
    ensures
        match r {
            Ok(s) => canonical_snapshot_result(input_views(inputs@)) == Ok::<
                Seq<char>,
                DslDiagnosticView,
            >(s@),
            Err(e) => canonical_snapshot_result(input_views(inputs@)) == Err::<
                Seq<char>,
                DslDiagnosticView,
            >(e@),
        },
{
    let ghost views = input_views(inputs@);
    let mut out = owned("dsl_canonical_ir_v1");
    let mut i: usize = 0;
    while i < inputs.len()
        invariant
            i <= inputs.len(),
            views == input_views(inputs@),
            snapshot_lines(views.take(i as int)) == Ok::<Seq<char>, DslDiagnosticView>(out@),
        decreases inputs.len() - i,
    {
        let built = build_document(&inputs[i]);
        proof {
            assert(views.take(i + 1).drop_last() =~= views.take(i as int));
            assert(views.take(i + 1).last() == inputs@[i as int]@);
        }
        match built {
            Err(e) => {
                proof {
                    lemma_snapshot_prefix_fails(views, i + 1);
                }
                return Err(e);
            },
            Ok(document) => {
                out.append("\n");
                let line = document.snapshot_line();
                out.append(line.as_str());
            },
        }
        i = i + 1;
    }
    proof {
        assert(views.take(inputs.len() as int) =~= views);
    }
    out.append("\n");
    Ok(out)
}

/// Whether the inputs' canonical snapshot is exactly `expected`.
pub fn validate_canonical_snapshot(inputs: Vec<DslFixtureInput>, expected: &str) -> (r: DslResult<
    (),
>)
    ensures
        dsl_outcome(r) == snapshot_check(input_views(inputs@), expected@),
{
    let actual = canonical_snapshot(inputs);
    match actual {
        Err(e) => Err(e),
        Ok(actual) => {
            if same_text(actual.as_str(), expected) {
                return Ok(());
            }
            Err(
                DslDiagnostic::error(
                    DSL_CANONICAL_IR_DRIFT,
                    "$.dsl_canonical_ir",
                    owned("DSL canonical IR snapshot drift"),
                    None,
                ),
            )
        },
    }
}

/// The canonical snapshot of a list of inputs validates against those
/// inputs.
pub proof fn lemma_snapshot_validates_itself(inputs: Seq<DslFixtureInputView>)
    requires
        canonical_snapshot_result(inputs) is Ok,
    ensures
        snapshot_check(inputs, canonical_snapshot_result(inputs)->Ok_0) == Ok::<(), DslDiagnosticView>(()),
{
}

/// Every row the DSL is required to cover has a payload, and the payload
/// covers that row.
pub proof fn lemma_required_rows_have_payloads()
    ensures
        forall|i: int|
            0 <= i < REQUIRED_CONTRACT_ROW_IDS@.len() ==> {
                let id = (#[trigger] REQUIRED_CONTRACT_ROW_IDS@[i])@;
                &&& surface_for_row(id) is Some
                &&& surface_text(surface_for_row(id)->Some_0) == id
            },
{
    assert forall|i: int| 0 <= i < REQUIRED_CONTRACT_ROW_IDS@.len() implies {
        let id = (#[trigger] REQUIRED_CONTRACT_ROW_IDS@[i])@;
        &&& surface_for_row(id) is Some
        &&& surface_text(surface_for_row(id)->Some_0) == id
    } by {
        lemma_surface_for_row(REQUIRED_CONTRACT_ROW_IDS@[i]@);
    }
}

/// The texts of the contract rows the DSL is required to cover.
pub open spec fn required_row_texts() -> Seq<Seq<char>> {
    REQUIRED_CONTRACT_ROW_IDS@.map_values(|s: &'static str| s@)
}

/// The DSL covers a contract row exactly when the row is a required one.
pub proof fn lemma_surface_for_row_iff_required(id: Seq<char>)
    ensures
        surface_for_row(id) is Some <==> required_row_texts().contains(id),
{
    let rows = required_row_texts();
    if surface_for_row(id) is Some {
        if id == "schema_versioning"@ {
            assert(rows[0] == id);
        } else if id == "component_identity"@ {
            assert(rows[1] == id);
        } else if id == "tree_structure"@ {
            assert(rows[2] == id);
        } else if id == "element_taxonomy"@ {
            assert(rows[3] == id);
        } else if id == "layout"@ {
            assert(rows[4] == id);
        } else if id == "styling"@ {
            assert(rows[5] == id);
        } else if id == "text"@ {
            assert(rows[6] == id);
        } else if id == "assets"@ {
            assert(rows[7] == id);
        } else if id == "events_gestures"@ {
            assert(rows[8] == id);
        } else if id == "actions_state"@ {
            assert(rows[9] == id);
        } else if id == "bindings_expressions"@ {
            assert(rows[10] == id);
        } else if id == "animations"@ {
            assert(rows[11] == id);
        } else if id == "native_modules"@ {
            assert(rows[12] == id);
        } else if id == "native_views"@ {
            assert(rows[13] == id);
        } else if id == "accessibility"@ {
            assert(rows[14] == id);
        } else if id == "hot_reload"@ {
            assert(rows[15] == id);
        } else if id == "diagnostics"@ {
            assert(rows[16] == id);
        } else if id == "web_dom"@ {
            assert(rows[17] == id);
        } else if id == "png_backend"@ {
            assert(rows[18] == id);
        } else if id == "dynamic_ui"@ {
            assert(rows[19] == id);
        } else if id == "ts_compatibility"@ {
            assert(rows[20] == id);
        } else if id == "build_graph"@ {
            assert(rows[21] == id);
        }
    }
    if rows.contains(id) {
        let k = choose|k: int| 0 <= k < rows.len() && rows[k] == id;
        lemma_required_rows_have_payloads();
        assert(REQUIRED_CONTRACT_ROW_IDS@[k]@ == id);
    }
}

/// Whether a fixture input is one the DSL builds a document from: it names
/// a required contract row, its text fields are not blank, its lists are
/// not empty, and its fixture ID and artifact path are the ones the row
/// determines.
pub open spec fn fixture_input_accepted(i: DslFixtureInputView) -> bool {
    &&& required_row_texts().contains(i.contract_row_id)
    &&& !is_blank_text(i.fixture_id)
    &&& !is_blank_text(i.contract_row_id)
    &&& !is_blank_text(i.surface)
    &&& !is_blank_text(i.serialized_artifact_path)
    &&& i.fixture_tags.len() > 0
    &&& i.platform_targets.len() > 0
    &&& i.owner_prs.len() > 0
    &&& i.proof_prs.len() > 0
    &&& i.coverage_tokens.len() > 0
    &&& i.fixture_id == expected_fixture_id_text(i.contract_row_id)
    &&& i.serialized_artifact_path == expected_path_text(i.contract_row_id)
}

/// The DSL builds a document for exactly the accepted fixture inputs.  The
/// document carries the input's fixture ID, row, surface, tags, targets,
/// PRs, artifact path and coverage tokens; its root node and component IDs
/// follow from the row; it has no source span; and its payload covers the
/// row.
pub proof fn lemma_contract_fixture_accepts_exactly(i: DslFixtureInputView)
    ensures
        contract_fixture_result(i) is Ok <==> fixture_input_accepted(i),
        contract_fixture_result(i) matches Ok(d) ==> {
            &&& d.fixture_id == i.fixture_id
            &&& d.contract_row_id == i.contract_row_id
            &&& d.surface == i.surface
            &&& d.fixture_tags == i.fixture_tags
            &&& d.platform_targets == i.platform_targets
            &&& d.owner_prs == i.owner_prs
            &&& d.proof_prs == i.proof_prs
            &&& d.serialized_artifact_path == i.serialized_artifact_path
            &&& d.coverage_tokens == i.coverage_tokens
            &&& d.root_node_id == "node."@ + i.contract_row_id + ".root"@
            &&& d.component_id == "component."@ + i.contract_row_id
            &&& d.source_span is None
            &&& surface_text(d.payload) == i.contract_row_id
        },
{
    lemma_surface_for_row_iff_required(i.contract_row_id);
    lemma_surface_for_row(i.contract_row_id);
}

} // verus!
