use valdi_rust::backend::operations::BackendOperation;
use valdi_rust::codec::binary;
use valdi_rust::codec::json_debug::{
    ContractDocument, ContractRow, FixtureEnvelope, FixtureMetadata, IrDebugEnvelope,
    SchemaVersion,
};
use valdi_rust::codec::CURRENT_SCHEMA_VERSION;
use valdi_rust::dynamic_ui::capabilities::{
    negotiate_capabilities, required_capabilities, DynamicUiProducerCapability,
    DynamicUiProducerCapabilitySet,
};
use valdi_rust::dynamic_ui::diagnostics::{
    DynamicUiDiagnostic, DYNAMIC_UI_CAPABILITY_UNSUPPORTED, DYNAMIC_UI_INVALID_DIAGNOSTIC_DRIFT,
    DYNAMIC_UI_NODE_ID_DRIFT, DYNAMIC_UI_OWNER_PR_MISMATCH, DYNAMIC_UI_SCHEMA_PATH_INVALID,
    DYNAMIC_UI_SOURCE_UNTRUSTED,
};
use valdi_rust::dynamic_ui::fixtures::{
    contract_document, dynamic_ui_fixture, invalid_diagnostics_snapshot, load_dynamic_ui_fixture,
    validate_invalid_diagnostics_snapshot, DYNAMIC_UI_FIXTURE_ID,
};
use valdi_rust::dynamic_ui::loader::{
    load_binary_bytes, load_from_producer, load_generated_fixture, load_in_memory,
    load_json_debug, load_produced_fixture,
};
use valdi_rust::dynamic_ui::producer::{DynamicProducerDescriptor, InMemoryDynamicProducer};
use valdi_rust::dynamic_ui::runtime_bridge::format_backend_snapshot;
use valdi_rust::dynamic_ui::source::{DynamicUiSourceMetadata, VALIDATED_IR_SCHEMA_PATH};
use valdi_rust::dynamic_ui::trust::{DynamicUiTrustLevel, DynamicUiTrustMetadata};
use valdi_rust::dynamic_ui::validator::validate_capability_set;
use valdi_rust::fixtures::SerializedFixture;

const IN_MEMORY_ONLY: &[DynamicUiProducerCapability] = &[
    DynamicUiProducerCapability::InMemoryInput,
    DynamicUiProducerCapability::RuntimeValidation,
    DynamicUiProducerCapability::RuntimeBridge,
];

fn strings(items: &[&str]) -> Vec<String> {
    items.iter().map(|s| s.to_string()).collect()
}

fn dynamic_row() -> ContractRow {
    ContractRow {
        id: "dynamic_ui".to_string(),
        surface: "Dynamic UI".to_string(),
        coverage: strings(&["dynamic_ui.json", "dynamic_ui.binary", "dynamic_ui.producer"]),
        owner_prs: strings(&["PR01", "PR05", "PR13"]),
        proof_prs: strings(&["PR13"]),
        fixture_tags: strings(&["dynamic_ui", "rust_backend"]),
        platform_targets: strings(&["rust_host"]),
    }
}

fn contract() -> ContractDocument {
    contract_document(Ok(ContractDocument {
        schema_version: CURRENT_SCHEMA_VERSION,
        fixture_tags: strings(&["dynamic_ui", "rust_backend"]),
        platform_targets: strings(&["rust_host"]),
        rows: vec![dynamic_row()],
    }))
    .expect("contract parses")
}

fn fixture() -> FixtureEnvelope {
    let row = dynamic_row();
    dynamic_ui_fixture(Ok(FixtureEnvelope {
        fixture_schema_version: CURRENT_SCHEMA_VERSION,
        fixture_id: "contract.dynamic_ui.v1".to_string(),
        contract_row_id: row.id.clone(),
        surface: row.surface.clone(),
        fixture_tags: row.fixture_tags.clone(),
        platform_targets: row.platform_targets.clone(),
        metadata: FixtureMetadata {
            owner_prs: row.owner_prs.clone(),
            proof_prs: row.proof_prs.clone(),
            serialized_artifact_path: "valdi_rust/fixtures/serialized/dynamic_ui.ir.json"
                .to_string(),
        },
        ir_debug: IrDebugEnvelope {
            schema_version: SchemaVersion { id: "valdi.ir".to_string(), major: 1, minor: 0 },
            contract_surface: row.id.clone(),
            root_node_id: "node.dynamic_ui.root".to_string(),
            component_id: "component.dynamic_ui".to_string(),
            source_span: None,
            coverage_tokens: row.coverage.clone(),
        },
    }))
    .expect("fixture parses")
}

#[test]
fn producer_capability_negotiation_is_typed_and_source_specific() {
    let source = DynamicUiSourceMetadata::in_memory("memory", VALIDATED_IR_SCHEMA_PATH);
    let decisions = negotiate_capabilities(DynamicUiProducerCapabilitySet::all(), source);

    assert_eq!(decisions.len(), 4);
    assert!(decisions.iter().all(|decision| decision.supported));
    assert_eq!(decisions[0].capability, DynamicUiProducerCapability::InMemoryInput);
}

#[test]
fn missing_required_capability_has_exact_diagnostic() {
    let diagnostic = validate_capability_set(
        DynamicUiProducerCapabilitySet::new(IN_MEMORY_ONLY),
        DynamicUiSourceMetadata::in_memory("memory", VALIDATED_IR_SCHEMA_PATH),
        DynamicUiTrustMetadata::first_party("PR13"),
    )
    .expect_err("missing mock backend sink must fail");

    assert_eq!(diagnostic.code, DYNAMIC_UI_CAPABILITY_UNSUPPORTED);
    assert_eq!(diagnostic.path, "$.producer.capabilities[]");
    assert_eq!(diagnostic.severity.as_str(), "error");
    assert_eq!(diagnostic.source.source_id(), "memory");
    assert_eq!(diagnostic.trust.owner_pr, "PR13");
    assert_eq!(diagnostic.message, "dynamic producer lacks mock_backend_sink capability");
}

#[test]
fn capabilities_required_by_each_source_kind() {
    let json = DynamicUiSourceMetadata::json_debug("a.json", VALIDATED_IR_SCHEMA_PATH);
    assert_eq!(
        required_capabilities(json),
        vec![
            DynamicUiProducerCapability::JsonDebugInput,
            DynamicUiProducerCapability::RuntimeValidation,
            DynamicUiProducerCapability::RuntimeBridge,
            DynamicUiProducerCapability::MockBackendSink,
        ]
    );
    let decisions = negotiate_capabilities(DynamicUiProducerCapabilitySet::new(IN_MEMORY_ONLY), json);
    assert!(!decisions[0].supported);
    assert!(decisions[1].supported);
    let d = validate_capability_set(
        DynamicUiProducerCapabilitySet::new(IN_MEMORY_ONLY),
        json,
        DynamicUiTrustMetadata::sandbox("PR13"),
    )
    .expect_err("json input is not declared");
    assert_eq!(d.message, "dynamic producer lacks json_debug_input capability");
}

#[test]
fn untrusted_source_returns_exact_source_trust_node_and_owner_context() {
    let diagnostic = load_in_memory(
        fixture(),
        &contract(),
        DynamicUiSourceMetadata::json_debug("dynamic_ui.json", VALIDATED_IR_SCHEMA_PATH),
        DynamicUiTrustMetadata::untrusted("PR13"),
    )
    .expect_err("untrusted dynamic source must fail");

    assert_eq!(diagnostic.code, DYNAMIC_UI_SOURCE_UNTRUSTED);
    assert_eq!(diagnostic.path, "$.trust.level");
    assert_eq!(diagnostic.source.source_id(), "dynamic_ui.json");
    assert_eq!(diagnostic.trust.level.as_str(), "untrusted");
    assert_eq!(diagnostic.node_id.as_deref(), Some("node.dynamic_ui.root"));
    assert_eq!(diagnostic.owner_pr.as_deref(), Some("PR01,PR05,PR13"));
}

#[test]
fn invalid_schema_path_is_rejected_before_runtime_bridge() {
    let diagnostic = load_in_memory(
        fixture(),
        &contract(),
        DynamicUiSourceMetadata::json_debug("dynamic_ui.json", "$.wrong"),
        DynamicUiTrustMetadata::generated_fixture("PR13"),
    )
    .expect_err("wrong schema path must fail");

    assert_eq!(diagnostic.code, DYNAMIC_UI_SCHEMA_PATH_INVALID);
    assert_eq!(diagnostic.path, "$.source.schema_path");
    assert_eq!(diagnostic.severity.as_str(), "error");
    assert_eq!(diagnostic.source.schema_path, "$.wrong");
}

#[test]
fn owner_pr_mismatch_is_rejected_with_exact_metadata_path() {
    let diagnostic = load_in_memory(
        fixture(),
        &contract(),
        DynamicUiSourceMetadata::generated_fixture("contract.dynamic_ui.v1", VALIDATED_IR_SCHEMA_PATH),
        DynamicUiTrustMetadata::generated_fixture("PR99"),
    )
    .expect_err("owner mismatch must fail");

    assert_eq!(diagnostic.code, DYNAMIC_UI_OWNER_PR_MISMATCH);
    assert_eq!(diagnostic.path, "$.metadata.owner_prs");
    assert_eq!(diagnostic.trust.owner_pr, "PR99");
    assert_eq!(diagnostic.owner_pr.as_deref(), Some("PR01,PR05,PR13"));
}

#[test]
fn node_id_drift_is_rejected_with_schema_node_and_owner_context() {
    let mut fixture = fixture();
    fixture.ir_debug.root_node_id = "node.dynamic_ui.changed".to_string();

    let diagnostic = load_in_memory(
        fixture,
        &contract(),
        DynamicUiSourceMetadata::in_memory("node_drift", VALIDATED_IR_SCHEMA_PATH),
        DynamicUiTrustMetadata::first_party("PR13"),
    )
    .expect_err("node drift must fail");

    assert_eq!(diagnostic.code, DYNAMIC_UI_NODE_ID_DRIFT);
    assert_eq!(diagnostic.path, "$.ir_debug.root_node_id");
    assert_eq!(diagnostic.node_id.as_deref(), Some("node.dynamic_ui.changed"));
    assert_eq!(diagnostic.owner_pr.as_deref(), Some("PR01,PR05,PR13"));
}

#[test]
fn contract_validator_diagnostics_are_preserved_for_dynamic_ir() {
    let mut fixture = fixture();
    fixture.ir_debug.coverage_tokens.pop();

    let diagnostic = load_in_memory(
        fixture,
        &contract(),
        DynamicUiSourceMetadata::in_memory("contract_drift", VALIDATED_IR_SCHEMA_PATH),
        DynamicUiTrustMetadata::first_party("PR13"),
    )
    .expect_err("contract drift must fail");

    assert_eq!(diagnostic.code, "IR_CONTRACT_DRIFT");
    assert_eq!(diagnostic.path, "$.ir_debug.coverage_tokens");
    assert_eq!(diagnostic.severity.as_str(), "error");
    assert_eq!(diagnostic.source.source_id(), "contract_drift");
    assert_eq!(diagnostic.trust.owner_pr, "PR13");
    assert_eq!(diagnostic.node_id.as_deref(), Some("node.dynamic_ui.root"));
}

#[test]
fn valid_dynamic_document_declares_its_runtime_identity() {
    let document = load_in_memory(
        fixture(),
        &contract(),
        DynamicUiSourceMetadata::in_memory("runtime_acceptance", VALIDATED_IR_SCHEMA_PATH),
        DynamicUiTrustMetadata::first_party("PR13"),
    )
    .expect("dynamic document loads");
    assert_eq!(document.runtime_document.fixture_id, "contract.dynamic_ui.v1");
    assert_eq!(document.runtime_document.root_node_id, "node.dynamic_ui.root");
    assert_eq!(document.runtime_document.component_id, "component.dynamic_ui");
    assert!(document.runtime_document.node_ids.contains(&"node.dynamic_ui.root"));
}

#[test]
fn dynamic_fixture_round_trips_through_json_and_postcard_before_runtime_load() {
    let contract = contract();
    let json_document = load_json_debug(
        Ok(fixture()),
        &contract,
        DynamicUiSourceMetadata::json_debug("dynamic_ui.json", VALIDATED_IR_SCHEMA_PATH),
        DynamicUiTrustMetadata::generated_fixture("PR13"),
    )
    .expect("json loads");

    let binary_bytes = binary::encode_fixture(&json_document.fixture).expect("binary encodes");
    let binary_document = load_binary_bytes(
        &binary_bytes,
        &contract,
        DynamicUiSourceMetadata::binary_bytes("dynamic_ui.postcard", VALIDATED_IR_SCHEMA_PATH),
        DynamicUiTrustMetadata::generated_fixture("PR13"),
    )
    .expect("binary loads");

    assert_eq!(binary_document.fixture, json_document.fixture);
    assert_eq!(
        binary_document.runtime_document.root_node_id,
        json_document.runtime_document.root_node_id
    );
}

#[test]
fn in_memory_dynamic_producer_feeds_validator_runtime_and_mock_backend() {
    let descriptor = DynamicProducerDescriptor {
        name: "dynamic_ui.memory_producer",
        owner_pr: "PR13",
        source: DynamicUiSourceMetadata::in_memory(
            "dynamic_ui.memory_producer",
            VALIDATED_IR_SCHEMA_PATH,
        ),
        trust: DynamicUiTrustMetadata::first_party("PR13"),
        capabilities: DynamicUiProducerCapabilitySet::all(),
    };
    let producer = InMemoryDynamicProducer::new(descriptor, fixture());

    let document = load_from_producer(&producer, &contract()).expect("producer loads");
    assert_eq!(document.fixture.fixture_id, "contract.dynamic_ui.v1");
    assert_eq!(document.runtime_document.root_node_id, "node.dynamic_ui.root");

    let limited = DynamicProducerDescriptor {
        capabilities: DynamicUiProducerCapabilitySet::new(IN_MEMORY_ONLY),
        ..descriptor
    };
    let refused = load_from_producer(&InMemoryDynamicProducer::new(limited, fixture()), &contract())
        .expect_err("a producer without the mock backend sink is refused");
    assert_eq!(refused.code, DYNAMIC_UI_CAPABILITY_UNSUPPORTED);

    let failure = DynamicUiDiagnostic {
        code: "PRODUCER_FAILED".to_string(),
        path: "$".to_string(),
        severity: refused.severity,
        source: descriptor.source,
        trust: descriptor.trust,
        node_id: None,
        owner_pr: None,
        message: "producer failed".to_string(),
    };
    let passed_on = load_produced_fixture(descriptor, Err(failure.clone()), &contract())
        .expect_err("a production failure is passed on");
    assert_eq!(passed_on, failure);
}

#[test]
fn generated_fixture_loads_only_under_its_corpus_id() {
    let serialized = SerializedFixture {
        id: DYNAMIC_UI_FIXTURE_ID,
        path: "valdi_rust/fixtures/serialized/dynamic_ui.ir.json",
        contents: "{}",
    };
    let document = load_dynamic_ui_fixture(Ok(contract_raw()), &serialized, Ok(fixture()))
        .expect("generated fixture loads");
    assert_eq!(document.trust.level, DynamicUiTrustLevel::GeneratedFixture);
    assert_eq!(document.source.source_id(), DYNAMIC_UI_FIXTURE_ID);

    let other = SerializedFixture { id: "contract.layout.v1", ..serialized };
    let drift = load_generated_fixture(
        &other,
        Ok(fixture()),
        &contract(),
        DynamicUiSourceMetadata::generated_fixture(DYNAMIC_UI_FIXTURE_ID, VALIDATED_IR_SCHEMA_PATH),
        DynamicUiTrustMetadata::generated_fixture("PR13"),
    )
    .expect_err("a fixture under another ID drifts");
    assert_eq!(drift.code, "DYNAMIC_UI_GENERATED_FIXTURE_ID_DRIFT");
    assert_eq!(
        drift.message,
        "generated fixture ID drift: \"contract.dynamic_ui.v1\" != \"contract.layout.v1\""
    );

    let parse = load_dynamic_ui_fixture(Err("bad contract".to_string()), &serialized, Ok(fixture()))
        .expect_err("contract parse failure");
    assert_eq!(parse.code, "IR_JSON_PARSE_ERROR");
    assert_eq!(parse.source.source_id(), "contract");
}

fn contract_raw() -> ContractDocument {
    contract()
}

#[test]
fn corrupted_binary_bytes_are_reported_in_the_source_context() {
    let d = load_binary_bytes(
        &[0xff, 0x00, 0x13, 0x37],
        &contract(),
        DynamicUiSourceMetadata::binary_bytes("broken.postcard", VALIDATED_IR_SCHEMA_PATH),
        DynamicUiTrustMetadata::sandbox("PR13"),
    )
    .expect_err("corrupt bytes");
    assert_eq!(d.code, "IR_BINARY_PAYLOAD_CORRUPT");
    assert_eq!(d.path, "$.binary");
    assert_eq!(d.source.source_id(), "broken.postcard");
    assert_eq!(d.owner_pr.as_deref(), Some("PR13"));
    assert_eq!(d.node_id, None);
}

#[test]
fn invalid_diagnostics_snapshot_is_stable() {
    let capability = validate_capability_set(
        DynamicUiProducerCapabilitySet::new(IN_MEMORY_ONLY),
        DynamicUiSourceMetadata::in_memory("memory", VALIDATED_IR_SCHEMA_PATH),
        DynamicUiTrustMetadata::first_party("PR13"),
    )
    .expect_err("capability mismatch must fail");
    let owner = load_in_memory(
        fixture(),
        &contract(),
        DynamicUiSourceMetadata::generated_fixture("contract.dynamic_ui.v1", VALIDATED_IR_SCHEMA_PATH),
        DynamicUiTrustMetadata::generated_fixture("PR99"),
    )
    .expect_err("owner mismatch must fail");
    let diagnostics = vec![capability, owner];

    let expected = "dynamic_ui_invalid_diagnostics_v1\n\
- code=DYNAMIC_UI_CAPABILITY_UNSUPPORTED path=$.producer.capabilities[] severity=error source=memory trust=first_party owner=PR13 node=<none>\n\
- code=DYNAMIC_UI_OWNER_PR_MISMATCH path=$.metadata.owner_prs severity=error source=contract.dynamic_ui.v1 trust=generated_fixture owner=PR01,PR05,PR13 node=node.dynamic_ui.root\n";
    assert_eq!(invalid_diagnostics_snapshot(&diagnostics), expected);
    assert_eq!(validate_invalid_diagnostics_snapshot(&diagnostics, expected), Ok(()));

    let drifted = expected
        .lines()
        .filter(|line| !line.contains("DYNAMIC_UI_OWNER_PR_MISMATCH"))
        .collect::<Vec<_>>()
        .join("\n")
        + "\n";
    let diagnostic = validate_invalid_diagnostics_snapshot(&diagnostics, &drifted)
        .expect_err("removed diagnostic must fail");
    assert_eq!(diagnostic.code, DYNAMIC_UI_INVALID_DIAGNOSTIC_DRIFT);
    assert_eq!(diagnostic.path, "$.dynamic_ui.invalid_diagnostics");
}

#[test]
fn trace_snapshot_lists_operation_families_and_capabilities() {
    let snapshot = format_backend_snapshot(
        "contract.dynamic_ui.v1",
        &[BackendOperation::Create, BackendOperation::Root],
    );
    assert_eq!(
        snapshot,
        "dynamic_ui_trace_v1\nfixture=contract.dynamic_ui.v1\noperations:\n\
- family=create capability=view_tree\n- family=root capability=view_tree\n"
    );
}

#[test]
fn every_producer_capability_set_lists_each_capability_once() {
    let set = DynamicUiProducerCapabilitySet::all();
    assert_eq!(
        set.capabilities,
        &valdi_rust::dynamic_ui::capabilities::ALL_DYNAMIC_UI_CAPABILITIES[..]
    );
    assert_eq!(set.capabilities.len(), 7);
}
