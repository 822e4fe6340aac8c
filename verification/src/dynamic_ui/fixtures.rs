//! The dynamic UI proof fixtures: the contract document in the dynamic
//! context and the snapshot of invalid-source diagnostics.

use vstd::prelude::*;

use crate::codec::diagnostics::CodecDiagnosticView;
use crate::codec::json_debug::{
    contract_shape, decode_contract, decode_fixture, decode_fixture_manifest, fixture_shape,
    json_parse_error, manifest_shape, ContractDocument, FixtureEnvelope, FixtureManifest,
};
use crate::dynamic_ui::loader::{generated_load_outcome, load_generated_fixture, DynamicUiDocument};
use crate::fixtures::SerializedFixture;
use crate::dynamic_ui::diagnostics::{
    dynamic_error, dynamic_outcome, dynamic_severity_text, DynamicUiDiagnostic,
    DynamicUiDiagnosticView, DynamicUiResult, DYNAMIC_UI_INVALID_DIAGNOSTIC_DRIFT,
};
use crate::dynamic_ui::source::{source_kind_id, DynamicUiSourceKind, DynamicUiSourceMetadata, GeneratedFixtureRef, InMemoryProducerTag, VALIDATED_IR_SCHEMA_PATH};
use crate::dynamic_ui::trust::{trust_level_text, DynamicUiTrustLevel, DynamicUiTrustMetadata};
use crate::text::{join, joined, owned, same_text, texts};

verus! {

pub const DYNAMIC_UI_FIXTURE_ID: &'static str = "contract.dynamic_ui.v1";

/// A failure to decode one of the proof's inputs, with the generated
/// fixture named `input` as its source.
pub open spec fn input_failure(e: CodecDiagnosticView, input: &'static str) -> DynamicUiDiagnosticView {
    dynamic_error(
        e.code,
        e.path,
        DynamicUiSourceMetadata {
            kind: DynamicUiSourceKind::GeneratedFixture(GeneratedFixtureRef { fixture_name: input }),
            schema_path: VALIDATED_IR_SCHEMA_PATH,
        },
        DynamicUiTrustMetadata { level: DynamicUiTrustLevel::FirstParty, owner_pr: "PR13" },
        None,
        Some("PR13"@),
        e.message,
    )
}

/// A contract document failure, in the context of the dynamic UI proof.
pub open spec fn contract_failure(e: CodecDiagnosticView) -> DynamicUiDiagnosticView {
    input_failure(e, "contract")
}

/// Finishes decoding the contract document for the dynamic UI proof:
/// `parsed` is what parsing its JSON gave.
pub fn contract_document(parsed: Result<ContractDocument, String>) -> (r: DynamicUiResult<ContractDocument>)
    ensures
        match parsed {
            Err(message) => r matches Err(d) && d@ == contract_failure(json_parse_error(message@)),
            Ok(contract) => match contract_shape(contract) {
                Err(e) => r matches Err(d) && d@ == contract_failure(e),
                Ok(_) => r matches Ok(c) && c == contract,
            },
        },
{
    match decode_contract(parsed) {
        Ok(contract) => Ok(contract),
        Err(diagnostic) => Err(
            DynamicUiDiagnostic::from_codec(
                diagnostic,
                DynamicUiSourceMetadata::generated_fixture("contract", VALIDATED_IR_SCHEMA_PATH),
                DynamicUiTrustMetadata::first_party("PR13"),
                None,
                Some(owned("PR13")),
            ),
        ),
    }
}

/// Finishes decoding the contract fixture manifest for the dynamic UI proof:
/// `parsed` is what parsing its JSON gave.
pub fn fixture_manifest(parsed: Result<FixtureManifest, String>) -> (r: DynamicUiResult<
    FixtureManifest,
>)
    ensures
        match parsed {
            Err(message) => r matches Err(d) && d@ == input_failure(
                json_parse_error(message@),
                "contract_fixture_manifest",
            ),
            Ok(manifest) => match manifest_shape(manifest) {
                Err(e) => r matches Err(d) && d@ == input_failure(e, "contract_fixture_manifest"),
                Ok(_) => r matches Ok(m) && m == manifest,
            },
        },
{
    match decode_fixture_manifest(parsed) {
        Ok(manifest) => Ok(manifest),
        Err(diagnostic) => Err(
            DynamicUiDiagnostic::from_codec(
                diagnostic,
                DynamicUiSourceMetadata::generated_fixture(
                    "contract_fixture_manifest",
                    VALIDATED_IR_SCHEMA_PATH,
                ),
                DynamicUiTrustMetadata::first_party("PR13"),
                None,
                Some(owned("PR13")),
            ),
        ),
    }
}

/// Finishes decoding the dynamic UI fixture of the corpus: `parsed` is what
/// parsing its JSON debug text gave.
pub fn dynamic_ui_fixture(parsed: Result<FixtureEnvelope, String>) -> (r: DynamicUiResult<
    FixtureEnvelope,
>)
    ensures
        match parsed {
            Err(message) => r matches Err(d) && d@ == input_failure(
                json_parse_error(message@),
                DYNAMIC_UI_FIXTURE_ID,
            ),
            Ok(fixture) => match fixture_shape(fixture@) {
                Err(e) => r matches Err(d) && d@ == input_failure(e, DYNAMIC_UI_FIXTURE_ID),
                Ok(_) => r matches Ok(f) && f == fixture,
            },
        },
{
    match decode_fixture(parsed) {
        Ok(fixture) => Ok(fixture),
        Err(diagnostic) => Err(
            DynamicUiDiagnostic::from_codec(
                diagnostic,
                DynamicUiSourceMetadata::generated_fixture(
                    DYNAMIC_UI_FIXTURE_ID,
                    VALIDATED_IR_SCHEMA_PATH,
                ),
                DynamicUiTrustMetadata::first_party("PR13"),
                None,
                Some(owned("PR13")),
            ),
        ),
    }
}

/// Loads the dynamic UI fixture of the corpus as a generated fixture:
/// `contract` is what parsing the contract's JSON gave, `serialized` the
/// corpus entry of the dynamic UI fixture and `parsed` what parsing its
/// JSON debug text gave.
pub fn load_dynamic_ui_fixture(
    contract: Result<ContractDocument, String>,
    serialized: &SerializedFixture,
    parsed: Result<FixtureEnvelope, String>,
) -> (r: DynamicUiResult<DynamicUiDocument>)
    requires
        serialized.id@ == DYNAMIC_UI_FIXTURE_ID@,
    ensures
        match contract {
            Err(message) => r matches Err(d) && d@ == contract_failure(json_parse_error(message@)),
            Ok(c) => match contract_shape(c) {
                Err(e) => r matches Err(d) && d@ == contract_failure(e),
                Ok(_) => generated_load_outcome(
                    r,
                    *serialized,
                    parsed,
                    c,
                    DynamicUiSourceMetadata {
                        kind: DynamicUiSourceKind::GeneratedFixture(
                            GeneratedFixtureRef { fixture_name: DYNAMIC_UI_FIXTURE_ID },
                        ),
                        schema_path: VALIDATED_IR_SCHEMA_PATH,
                    },
                    DynamicUiTrustMetadata {
                        level: DynamicUiTrustLevel::GeneratedFixture,
                        owner_pr: "PR13",
                    },
                ),
            },
        },
{
    let contract = match contract_document(contract) {
        Ok(contract) => contract,
        Err(d) => return Err(d),
    };
    load_generated_fixture(
        serialized,
        parsed,
        &contract,
        DynamicUiSourceMetadata::generated_fixture(DYNAMIC_UI_FIXTURE_ID, VALIDATED_IR_SCHEMA_PATH),
        DynamicUiTrustMetadata::generated_fixture("PR13"),
    )
}

/// An optional text, or `<none>`.
pub open spec fn or_none(value: Option<Seq<char>>) -> Seq<char> {
    match value {
        Some(v) => v,
        None => "<none>"@,
    }
}

/// The snapshot line of a diagnostic.
pub open spec fn diagnostic_line(d: DynamicUiDiagnosticView) -> Seq<char> {
    "- code="@ + d.code + " path="@ + d.path + " severity="@ + dynamic_severity_text(d.severity)
        + " source="@ + source_kind_id(d.source.kind) + " trust="@ + trust_level_text(d.trust.level)
        + " owner="@ + or_none(d.owner_pr) + " node="@ + or_none(d.node_id)
}

/// The snapshot of diagnostics: a header and a line per diagnostic, each
/// line ending in a newline.
pub open spec fn diagnostics_snapshot_text(diagnostics: Seq<DynamicUiDiagnostic>) -> Seq<char> {
    joined(
        seq!["dynamic_ui_invalid_diagnostics_v1"@] + diagnostics.map_values(
            |d: DynamicUiDiagnostic| diagnostic_line(d@),
        ),
        "\n"@,
    ) + "\n"@
}

fn push_or_none(out: &mut String, value: &Option<String>)
    ensures
        final(out)@ == old(out)@ + or_none(crate::text::opt_text(*value)),
{
    match value {
        Some(v) => out.append(v.as_str()),
        None => out.append("<none>"),
    }
}

/// The snapshot of a list of diagnostics.
pub fn invalid_diagnostics_snapshot(diagnostics: &[DynamicUiDiagnostic]) -> (r: String)
    ensures
        r@ == diagnostics_snapshot_text(diagnostics@),
{
    let ghost all = diagnostics@.map_values(|d: DynamicUiDiagnostic| diagnostic_line(d@));
    let ghost head = seq!["dynamic_ui_invalid_diagnostics_v1"@];
    let mut lines: Vec<String> = Vec::new();
    lines.push(owned("dynamic_ui_invalid_diagnostics_v1"));
    assert(texts(lines@) =~= head);
    let mut i: usize = 0;
    while i < diagnostics.len()
        invariant
            i <= diagnostics@.len(),
            all == diagnostics@.map_values(|d: DynamicUiDiagnostic| diagnostic_line(d@)),
            texts(lines@) == head + all.take(i as int),
        decreases diagnostics@.len() - i,
    {
        let d = &diagnostics[i];
        let mut line = owned("- code=");
        line.append(d.code.as_str());
        line.append(" path=");
        line.append(d.path.as_str());
        line.append(" severity=");
        line.append(d.severity.as_str());
        line.append(" source=");
        line.append(d.source.source_id());
        line.append(" trust=");
        line.append(d.trust.level.as_str());
        line.append(" owner=");
        push_or_none(&mut line, &d.owner_pr);
        line.append(" node=");
        push_or_none(&mut line, &d.node_id);
        let ghost before = texts(lines@);
        let ghost added = line@;
        lines.push(line);
        proof {
            assert(added == all[i as int]);
            assert(texts(lines@) =~= before.push(added));
            assert(all.take(i + 1) =~= all.take(i as int).push(all[i as int]));
        }
        i = i + 1;
    }
    assert(all.take(diagnostics@.len() as int) =~= all);
    let mut out = join(&lines, "\n");
    out.append("\n");
    out
}

/// The diagnostic for a snapshot of invalid-source diagnostics that drifted.
pub open spec fn snapshot_drift() -> DynamicUiDiagnosticView {
    dynamic_error(
        DYNAMIC_UI_INVALID_DIAGNOSTIC_DRIFT@,
        "$.dynamic_ui.invalid_diagnostics"@,
        DynamicUiSourceMetadata {
            kind: DynamicUiSourceKind::InMemory(InMemoryProducerTag { name: "invalid_diagnostics" }),
            schema_path: VALIDATED_IR_SCHEMA_PATH,
        },
        DynamicUiTrustMetadata { level: DynamicUiTrustLevel::FirstParty, owner_pr: "PR13" },
        None,
        Some("PR13"@),
        "dynamic UI invalid diagnostic snapshot drift"@,
    )
}

/// Checks that the snapshot of diagnostics is the expected text.
pub fn validate_invalid_diagnostics_snapshot(diagnostics: &[DynamicUiDiagnostic], expected: &str) -> (r:
    DynamicUiResult<()>)
    ensures
        dynamic_outcome(r) == if diagnostics_snapshot_text(diagnostics@) == expected@ {
            Ok(())
        } else {
            Err(snapshot_drift())
        },
{
    let actual = invalid_diagnostics_snapshot(diagnostics);
    if same_text(actual.as_str(), expected) {
        return Ok(());
    }
    Err(
        DynamicUiDiagnostic::error(
            DYNAMIC_UI_INVALID_DIAGNOSTIC_DRIFT,
            "$.dynamic_ui.invalid_diagnostics",
            DynamicUiSourceMetadata::in_memory("invalid_diagnostics", VALIDATED_IR_SCHEMA_PATH),
            DynamicUiTrustMetadata::first_party("PR13"),
            None,
            Some(owned("PR13")),
            owned("dynamic UI invalid diagnostic snapshot drift"),
        ),
    )
}

} // verus!
