use valdi_rust::codec::binary;
use valdi_rust::codec::diagnostics::DiagnosticSeverity;
use valdi_rust::codec::inspect;
use valdi_rust::codec::json_debug::{
    self, ContractDocument, ContractRow, FixtureEnvelope, FixtureManifest, FixtureManifestEntry,
    FixtureMetadata, InvalidDiagnostic, InvalidFixture, InvalidFixtureManifest, IrDebugEnvelope,
    SchemaVersion,
};
use valdi_rust::codec::validator;
use valdi_rust::codec::{crate_id, CURRENT_BINARY_WIRE_VERSION, CURRENT_SCHEMA_VERSION};

fn strings(items: &[&str]) -> Vec<String> {
    items.iter().map(|s| s.to_string()).collect()
}

fn row(id: &str, surface: &str, owners: &[&str]) -> ContractRow {
    ContractRow {
        id: id.to_string(),
        surface: surface.to_string(),
        coverage: strings(&[&format!("{id}.first"), &format!("{id}.second")]),
        owner_prs: strings(owners),
        proof_prs: strings(&["PR04"]),
        fixture_tags: strings(&["ios", "rust_backend"]),
        platform_targets: strings(&["ios", "rust_host"]),
    }
}

fn contract() -> ContractDocument {
    ContractDocument {
        schema_version: CURRENT_SCHEMA_VERSION,
        fixture_tags: strings(&["ios", "rust_backend"]),
        platform_targets: strings(&["ios", "rust_host"]),
        rows: vec![
            row("schema_versioning", "Schema and versioning", &["PR01"]),
            row("component_identity", "Component identity", &["PR01", "PR02"]),
            row("dynamic_ui", "Dynamic UI", &["PR01", "PR05", "PR13"]),
        ],
    }
}

fn fixture_for(row: &ContractRow) -> FixtureEnvelope {
    FixtureEnvelope {
        fixture_schema_version: CURRENT_SCHEMA_VERSION,
        fixture_id: format!("contract.{}.v1", row.id),
        contract_row_id: row.id.clone(),
        surface: row.surface.clone(),
        fixture_tags: row.fixture_tags.clone(),
        platform_targets: row.platform_targets.clone(),
        metadata: FixtureMetadata {
            owner_prs: row.owner_prs.clone(),
            proof_prs: row.proof_prs.clone(),
            serialized_artifact_path: format!("valdi_rust/fixtures/serialized/{}.ir.json", row.id),
        },
        ir_debug: IrDebugEnvelope {
            schema_version: SchemaVersion { id: "valdi.ir".to_string(), major: 1, minor: 0 },
            contract_surface: row.id.clone(),
            root_node_id: format!("node.{}.root", row.id),
            component_id: format!("component.{}", row.id),
            source_span: None,
            coverage_tokens: row.coverage.clone(),
        },
    }
}

fn first_fixture() -> FixtureEnvelope {
    fixture_for(&contract().rows[0])
}

fn manifest() -> FixtureManifest {
    FixtureManifest {
        schema_version: CURRENT_SCHEMA_VERSION,
        owner_pr: "PR04".to_string(),
        source_contract: "docs/rust_migration/replacement_contract.yaml".to_string(),
        fixture_id_format: "contract.<row>.v1".to_string(),
        serialized_artifact_root: "valdi_rust/fixtures/serialized".to_string(),
        fixtures: contract()
            .rows
            .iter()
            .map(|row| FixtureManifestEntry {
                fixture_id: format!("contract.{}.v1", row.id),
                contract_row_id: row.id.clone(),
                surface: row.surface.clone(),
                fixture_tags: row.fixture_tags.clone(),
                platform_targets: row.platform_targets.clone(),
                owner_prs: row.owner_prs.clone(),
                proof_prs: row.proof_prs.clone(),
                serialized_artifact_path: format!(
                    "valdi_rust/fixtures/serialized/{}.ir.json",
                    row.id
                ),
            })
            .collect(),
    }
}

const INVALID_TABLE: [(&str, &str, &str, &str); 8] = [
    ("invalid.schema_path.v1", "schema_path", "IR_SCHEMA_PATH_INVALID", "$.root.children[0].kind"),
    ("invalid.source_span.v1", "source_span", "IR_SOURCE_SPAN_MISSING", "source://fixtures/diagnostics.valdi.rs:1:1"),
    ("invalid.backend_path.v1", "backend_path", "IR_BACKEND_PATH_UNRESOLVED", "backend://rust_backend/root"),
    ("invalid.capability_error.v1", "capability_error", "IR_CAPABILITY_UNSUPPORTED", "$.capabilities[missing]"),
    ("invalid.unsupported_surface.v1", "unsupported_surface", "IR_SURFACE_UNSUPPORTED", "$.element.unsupported"),
    ("invalid.fixture_id.v1", "fixture_id", "IR_FIXTURE_ID_INVALID", "$.fixture_id"),
    ("invalid.action_id.v1", "action_id", "IR_ACTION_ID_UNRESOLVED", "$.actions[missing]"),
    ("invalid.module_id.v1", "module_id", "IR_MODULE_ID_UNRESOLVED", "$.modules[missing]"),
];

fn invalid_manifest() -> InvalidFixtureManifest {
    InvalidFixtureManifest {
        schema_version: CURRENT_SCHEMA_VERSION,
        owner_pr: "PR05".to_string(),
        source_ir_module: "valdi_rust_ir::diagnostics".to_string(),
        invalid_fixture_id_format: "invalid.<family>.v1".to_string(),
        invalid_fixtures: INVALID_TABLE
            .iter()
            .map(|(id, family, code, path)| InvalidFixture {
                fixture_id: id.to_string(),
                diagnostic_family: family.to_string(),
                expected_diagnostic: InvalidDiagnostic {
                    code: code.to_string(),
                    path: path.to_string(),
                    severity: DiagnosticSeverity::Error,
                },
            })
            .collect(),
    }
}

fn encode_invalid_manifest_payload(payload: InvalidFixtureManifest) -> Vec<u8> {
    let fixtures: Vec<binary::InvalidFixtureWire> = payload
        .invalid_fixtures
        .iter()
        .map(|f| {
            let severity = match f.expected_diagnostic.severity {
                DiagnosticSeverity::Info => 0u32,
                DiagnosticSeverity::Warning => 1u32,
                DiagnosticSeverity::Error => 2u32,
            };
            (
                f.fixture_id.clone(),
                f.diagnostic_family.clone(),
                (f.expected_diagnostic.code.clone(), f.expected_diagnostic.path.clone(), severity),
            )
        })
        .collect();
    let envelope: binary::InvalidManifestWire = (
        CURRENT_SCHEMA_VERSION,
        CURRENT_BINARY_WIRE_VERSION,
        (
            payload.schema_version,
            payload.owner_pr,
            payload.source_ir_module,
            payload.invalid_fixture_id_format,
            fixtures,
        ),
    );
    postcard::to_allocvec(&envelope).expect("test invalid manifest envelope encodes")
}

#[test]
fn ir_inspect_output_is_stable_for_fixture_payloads() {
    let fixture = json_debug::decode_fixture(Ok(first_fixture())).expect("fixture parses");
    let output = inspect::inspect_fixture(&fixture, Some("ios"));
    let expected = [
        "schema_path: $.fixtures[contract.schema_versioning.v1]",
        "node_id: node.schema_versioning.root",
        "source_span: <absent>",
        "owner_pr: PR01",
        "fixture_id: contract.schema_versioning.v1",
        "backend_tag: ios",
        "surface: Schema and versioning",
    ]
    .join("\n");
    assert_eq!(output, expected);
}

#[test]
fn inspection_falls_back_to_the_first_tag_and_owner() {
    let mut fixture = first_fixture();
    fixture.ir_debug.source_span = Some("app.rs:1:1".to_string());
    let output = inspect::inspect_fixture(&fixture, None);
    assert!(output.contains("\nbackend_tag: ios\n"));
    assert!(output.contains("\nsource_span: app.rs:1:1\n"));
    fixture.fixture_tags.clear();
    fixture.metadata.owner_prs.clear();
    let output = inspect::inspect_fixture(&fixture, None);
    assert!(output.contains("\nbackend_tag: unknown\n"));
    assert!(output.contains("\nowner_pr: unknown\n"));
}

#[test]
fn current_schema_and_wire_versions_are_accepted() {
    let fixture = first_fixture();
    assert_eq!(fixture.fixture_schema_version, CURRENT_SCHEMA_VERSION);

    let encoded = binary::encode_fixture(&fixture).expect("current binary encode succeeds");
    let decoded = binary::decode_fixture(&encoded).expect("current binary decode succeeds");
    assert_eq!(decoded, fixture);
}

#[test]
fn unsupported_json_schema_version_returns_exact_diagnostic() {
    let mut fixture = first_fixture();
    fixture.fixture_schema_version = CURRENT_SCHEMA_VERSION + 1;

    let diagnostic = json_debug::encode_fixture(&fixture, Ok("{}".to_string()))
        .expect_err("unsupported JSON debug schema version must fail");
    assert_eq!(diagnostic.code, "IR_SCHEMA_VERSION_UNSUPPORTED");
    assert_eq!(diagnostic.path, "$.fixture_schema_version");
}

#[test]
fn unsupported_binary_schema_and_wire_versions_return_exact_diagnostics() {
    let fixture = first_fixture();

    let unsupported_schema = binary::encode_fixture_with_versions(
        &fixture,
        CURRENT_SCHEMA_VERSION + 1,
        CURRENT_BINARY_WIRE_VERSION,
    )
    .expect("test can encode unsupported schema envelope");
    let schema_diagnostic = binary::decode_fixture(&unsupported_schema)
        .expect_err("unsupported binary schema version must fail");
    assert_eq!(schema_diagnostic.code, "IR_SCHEMA_VERSION_UNSUPPORTED");
    assert_eq!(schema_diagnostic.path, "$.binary.schema_version");

    let unsupported_wire = binary::encode_fixture_with_versions(
        &fixture,
        CURRENT_SCHEMA_VERSION,
        CURRENT_BINARY_WIRE_VERSION + 1,
    )
    .expect("test can encode unsupported wire envelope");
    let wire_diagnostic = binary::decode_fixture(&unsupported_wire)
        .expect_err("unsupported binary wire version must fail");
    assert_eq!(wire_diagnostic.code, "IR_BINARY_WIRE_VERSION_UNSUPPORTED");
    assert_eq!(wire_diagnostic.path, "$.binary.wire_version");
}

#[test]
fn corrupted_binary_payload_returns_exact_diagnostic() {
    let diagnostic = binary::decode_fixture(&[0xff, 0x00, 0x13, 0x37])
        .expect_err("corrupted binary payload must fail");
    assert_eq!(diagnostic.code, "IR_BINARY_PAYLOAD_CORRUPT");
    assert_eq!(diagnostic.path, "$.binary");
}

#[test]
fn binary_invalid_manifest_payload_shape_returns_exact_diagnostics() {
    let mut unsupported_schema = invalid_manifest();
    unsupported_schema.schema_version = CURRENT_SCHEMA_VERSION + 1;
    let unsupported_schema_bytes = encode_invalid_manifest_payload(unsupported_schema);
    let unsupported_schema_diagnostic = binary::decode_invalid_manifest(&unsupported_schema_bytes)
        .expect_err("unsupported invalid manifest payload schema must fail");
    assert_eq!(unsupported_schema_diagnostic.code, "IR_SCHEMA_VERSION_UNSUPPORTED");
    assert_eq!(unsupported_schema_diagnostic.path, "$.schema_version");

    let mut missing_owner = invalid_manifest();
    missing_owner.owner_pr.clear();
    let missing_owner_encode_diagnostic = binary::encode_invalid_manifest(&missing_owner)
        .expect_err("invalid manifest binary encode must validate required fields");
    assert_eq!(missing_owner_encode_diagnostic.code, "IR_FIELD_REQUIRED");
    assert_eq!(missing_owner_encode_diagnostic.path, "$.owner_pr");

    let missing_owner_bytes = encode_invalid_manifest_payload(missing_owner);
    let missing_owner_decode_diagnostic = binary::decode_invalid_manifest(&missing_owner_bytes)
        .expect_err("invalid manifest binary decode must validate required fields");
    assert_eq!(missing_owner_decode_diagnostic.code, "IR_FIELD_REQUIRED");
    assert_eq!(missing_owner_decode_diagnostic.path, "$.owner_pr");
}

#[test]
fn invalid_fixtures_produce_exact_diagnostics() {
    let invalid_manifest =
        json_debug::decode_invalid_manifest(Ok(invalid_manifest())).expect("invalid manifest parses");
    assert_eq!(invalid_manifest.invalid_fixtures.len(), 8);

    let canonical_json = json_debug::encode_invalid_manifest(&invalid_manifest, Ok("{}".to_string()))
        .expect("invalid manifest JSON encodes");
    assert_eq!(canonical_json, "{}\n");

    let binary = binary::encode_invalid_manifest(&invalid_manifest)
        .expect("invalid manifest binary encodes");
    let binary_round_trip =
        binary::decode_invalid_manifest(&binary).expect("invalid manifest binary decodes");
    assert_eq!(binary_round_trip, invalid_manifest);

    for invalid_fixture in &invalid_manifest.invalid_fixtures {
        let diagnostic = validator::validate_invalid_fixture(invalid_fixture)
            .expect_err("invalid fixture must return its expected diagnostic");
        assert_eq!(diagnostic.code, invalid_fixture.expected_diagnostic.code);
        assert_eq!(diagnostic.path, invalid_fixture.expected_diagnostic.path);
        assert_eq!(diagnostic.severity, invalid_fixture.expected_diagnostic.severity);
        assert_eq!(diagnostic.severity, DiagnosticSeverity::Error);
        assert_eq!(
            diagnostic.message,
            format!("invalid fixture covers {}", invalid_fixture.diagnostic_family)
        );
    }
}

#[test]
fn validator_is_bound_to_contract_rows_and_fixture_tags() {
    let contract = json_debug::decode_contract(Ok(contract())).expect("contract parses");
    let manifest = json_debug::decode_fixture_manifest(Ok(manifest())).expect("manifest parses");
    validator::validate_manifest_against_contract(&manifest, &contract)
        .expect("manifest matches contract");

    for row in &contract.rows {
        let fixture = json_debug::decode_fixture(Ok(fixture_for(row))).expect("fixture parses");
        validator::validate_fixture_against_contract(&fixture, &contract)
            .expect("fixture matches contract");
    }
}

#[test]
fn contract_drift_missing_row_or_tag_fails() {
    let mut contract = contract();
    let manifest = manifest();

    let mut missing_row_manifest = manifest.clone();
    missing_row_manifest.fixtures[0].contract_row_id = "missing_contract_row".to_string();
    let missing_row = validator::validate_manifest_against_contract(&missing_row_manifest, &contract)
        .expect_err("missing contract row must fail");
    assert_eq!(missing_row.code, "IR_CONTRACT_ROW_MISSING");
    assert_eq!(missing_row.path, "$.fixtures[].contract_row_id");

    contract.rows[0].fixture_tags.remove(0);
    let missing_tag = validator::validate_manifest_against_contract(&manifest, &contract)
        .expect_err("missing row/tag coverage must fail");
    assert_eq!(missing_tag.code, "IR_CONTRACT_DRIFT");
    assert_eq!(missing_tag.path, "$.fixtures[].fixture_tags");
}

#[test]
fn manifest_rejects_exact_corpus_drift() {
    let contract = contract();
    let manifest = manifest();

    let mut extra_entry_manifest = manifest.clone();
    let mut extra_entry = extra_entry_manifest.fixtures[0].clone();
    extra_entry.fixture_id = "contract.extra_fixture.v1".to_string();
    extra_entry_manifest.fixtures.push(extra_entry);
    let extra_entry_diagnostic =
        validator::validate_manifest_against_contract(&extra_entry_manifest, &contract)
            .expect_err("extra fixture entry must fail");
    assert_eq!(extra_entry_diagnostic.code, "IR_FIXTURE_COUNT_DRIFT");
    assert_eq!(extra_entry_diagnostic.path, "$.fixtures");
    assert_eq!(extra_entry_diagnostic.message, "fixture count drift: 4 != 3");

    let mut duplicate_row_manifest = manifest.clone();
    duplicate_row_manifest.fixtures[1].contract_row_id =
        duplicate_row_manifest.fixtures[0].contract_row_id.clone();
    let duplicate_row_diagnostic =
        validator::validate_manifest_against_contract(&duplicate_row_manifest, &contract)
            .expect_err("duplicate contract row entry must fail");
    assert_eq!(duplicate_row_diagnostic.code, "IR_FIXTURE_CONTRACT_ROW_DUPLICATE");
    assert_eq!(duplicate_row_diagnostic.path, "$.fixtures[].contract_row_id");

    let mut fixture_id_drift_manifest = manifest.clone();
    fixture_id_drift_manifest.fixtures[0].fixture_id = "contract.schema_versioning.v2".to_string();
    let fixture_id_drift =
        validator::validate_manifest_against_contract(&fixture_id_drift_manifest, &contract)
            .expect_err("fixture ID drift must fail");
    assert_eq!(fixture_id_drift.code, "IR_FIXTURE_ID_DRIFT");
    assert_eq!(fixture_id_drift.path, "$.fixtures[].fixture_id");

    let mut path_drift_manifest = manifest.clone();
    path_drift_manifest.fixtures[0].serialized_artifact_path =
        "valdi_rust/fixtures/serialized/schema_versioning_drift.ir.json".to_string();
    let path_drift = validator::validate_manifest_against_contract(&path_drift_manifest, &contract)
        .expect_err("serialized path drift must fail");
    assert_eq!(path_drift.code, "IR_FIXTURE_PATH_DRIFT");
    assert_eq!(path_drift.path, "$.fixtures[].serialized_artifact_path");
}

#[test]
fn fixture_payload_rejects_identity_and_path_drift() {
    let contract = contract();
    let fixture = first_fixture();

    let mut fixture_id_drift = fixture.clone();
    fixture_id_drift.fixture_id = "contract.schema_versioning.v2".to_string();
    let fixture_id_diagnostic =
        validator::validate_fixture_against_contract(&fixture_id_drift, &contract)
            .expect_err("fixture ID drift must fail");
    assert_eq!(fixture_id_diagnostic.code, "IR_FIXTURE_ID_DRIFT");
    assert_eq!(fixture_id_diagnostic.path, "$.fixture_id");
    assert_eq!(
        fixture_id_diagnostic.message,
        "fixture ID drift: \"contract.schema_versioning.v2\" != \"contract.schema_versioning.v1\""
    );

    let mut path_drift = fixture;
    path_drift.metadata.serialized_artifact_path =
        "valdi_rust/fixtures/serialized/schema_versioning_drift.ir.json".to_string();
    let path_diagnostic = validator::validate_fixture_against_contract(&path_drift, &contract)
        .expect_err("serialized path drift must fail");
    assert_eq!(path_diagnostic.code, "IR_FIXTURE_PATH_DRIFT");
    assert_eq!(path_diagnostic.path, "$.metadata.serialized_artifact_path");
}

#[test]
fn contract_drift_on_lists_names_both_sides() {
    let contract = contract();
    let mut fixture = first_fixture();
    fixture.ir_debug.coverage_tokens.pop();
    let d = validator::validate_fixture_against_contract(&fixture, &contract)
        .expect_err("coverage drift must fail");
    assert_eq!(d.code, "IR_CONTRACT_DRIFT");
    assert_eq!(d.path, "$.ir_debug.coverage_tokens");
    assert_eq!(
        d.message,
        "coverage tokens drift: [\"schema_versioning.first\"] != [\"schema_versioning.first\", \"schema_versioning.second\"]"
    );

    let mut unknown = first_fixture();
    unknown.contract_row_id = "nowhere".to_string();
    let d = validator::validate_fixture_against_contract(&unknown, &contract)
        .expect_err("unknown row must fail");
    assert_eq!(d.code, "IR_CONTRACT_ROW_MISSING");
    assert_eq!(d.message, "missing contract row nowhere");
}

#[test]
fn duplicate_contract_rows_and_parse_failures_are_reported() {
    let mut doubled = contract();
    doubled.rows.push(doubled.rows[0].clone());
    let mut manifest = manifest();
    manifest.fixtures.push(manifest.fixtures[0].clone());
    let d = validator::validate_manifest_against_contract(&manifest, &doubled)
        .expect_err("duplicate rows must fail");
    assert_eq!(d.code, "IR_CONTRACT_ROW_DUPLICATE");
    assert_eq!(d.message, "duplicate contract row schema_versioning");

    let d = json_debug::decode_fixture(Err("expected value at line 1 column 1".to_string()))
        .expect_err("parse failure");
    assert_eq!(d.code, "IR_JSON_PARSE_ERROR");
    assert_eq!(d.path, "$");
    assert_eq!(d.message, "expected value at line 1 column 1");

    let mut blank = first_fixture();
    blank.surface = " ".to_string();
    let d = json_debug::decode_fixture(Ok(blank)).expect_err("blank surface");
    assert_eq!(d.code, "IR_FIELD_REQUIRED");
    assert_eq!(d.path, "$.surface");
}

#[test]
fn expected_identities_follow_the_row_id() {
    assert_eq!(validator::expected_fixture_id("layout"), "contract.layout.v1");
    assert_eq!(
        validator::expected_serialized_artifact_path("layout"),
        "valdi_rust/fixtures/serialized/layout.ir.json"
    );
    assert_eq!(crate_id(), "valdi_rust_codec");
}

#[test]
fn binary_fixture_round_trip_keeps_every_field() {
    for row in contract().rows {
        let mut fixture = fixture_for(&row);
        fixture.ir_debug.source_span = Some(format!("{}.rs:3:9", row.id));
        let bytes = binary::encode_fixture(&fixture).expect("encodes");
        assert!(!bytes.is_empty());
        assert_eq!(binary::decode_fixture(&bytes), Ok(fixture));
    }
}

#[test]
fn corrupt_invalid_manifest_bytes_report_the_first_failure_in_reading_order() {
    let manifest = invalid_manifest();
    let fixtures: Vec<binary::InvalidFixtureWire> = manifest
        .invalid_fixtures
        .iter()
        .enumerate()
        .map(|(i, f)| {
            let severity = if i == 0 { 5u32 } else { 2u32 };
            (
                f.fixture_id.clone(),
                f.diagnostic_family.clone(),
                (f.expected_diagnostic.code.clone(), f.expected_diagnostic.path.clone(), severity),
            )
        })
        .collect();
    let envelope: binary::InvalidManifestWire = (
        CURRENT_SCHEMA_VERSION,
        CURRENT_BINARY_WIRE_VERSION,
        (
            manifest.schema_version,
            manifest.owner_pr.clone(),
            manifest.source_ir_module.clone(),
            manifest.invalid_fixture_id_format.clone(),
            fixtures,
        ),
    );
    let bytes = postcard::to_allocvec(&envelope).expect("envelope encodes");

    let bad_index = binary::decode_invalid_manifest(&bytes).expect_err("bad severity index");
    assert_eq!(bad_index.code, "IR_BINARY_PAYLOAD_CORRUPT");
    assert_eq!(bad_index.message, "Serde Deserialization Error");

    let truncated = &bytes[..bytes.len() - 3];
    let bad_then_short = binary::decode_invalid_manifest(truncated).expect_err("bad index, then short");
    assert_eq!(bad_then_short.code, "IR_BINARY_PAYLOAD_CORRUPT");
    assert_eq!(bad_then_short.message, "Serde Deserialization Error");

    let good = binary::encode_invalid_manifest(&manifest).expect("encodes");
    let short = binary::decode_invalid_manifest(&good[..good.len() - 3]).expect_err("short");
    assert_eq!(short.code, "IR_BINARY_PAYLOAD_CORRUPT");
    assert_eq!(short.message, "Hit the end of buffer, expected more data");
}
