//! Loading dynamic fixtures from their sources into validated documents.

use vstd::prelude::*;

use crate::codec::binary::{binary_fixture_decoding, decode_fixture as decode_binary_fixture};
use crate::codec::diagnostics::CodecDiagnosticView;
use crate::codec::json_debug::{
    decode_fixture as decode_json_fixture, fixture_shape, json_parse_error, ContractDocument,
    FixtureEnvelope, FixtureEnvelopeView,
};
use crate::codec::diagnostics::then_check;
use crate::dynamic_ui::diagnostics::{
    dynamic_error, DynamicUiDiagnostic, DynamicUiDiagnosticSeverity, DynamicUiDiagnosticView,
    DynamicUiResult,
};
use crate::dynamic_ui::producer::{DynamicProducer, DynamicProducerDescriptor};
use crate::codec::validator::fixture_contract_check;
use crate::dynamic_ui::runtime_bridge::{
    runtime_bridge_check, runtime_document_from_fixture, table_texts, RuntimeDocumentDeclaration,
    KNOWN_COMPONENT_IDS, KNOWN_FIXTURE_IDS, KNOWN_ROOT_NODE_IDS,
};
use crate::dynamic_ui::source::{DynamicUiSourceMetadata, VALIDATED_IR_SCHEMA_PATH};
use crate::dynamic_ui::trust::{DynamicUiTrustLevel, DynamicUiTrustMetadata};
use crate::dynamic_ui::validator::{
    capability_set_check, dynamic_fixture_check, expected_root_text, lemma_dynamic_fixture_gates,
    owner_context,
    validate_dynamic_fixture, validate_producer_capabilities,
};
use crate::fixtures::SerializedFixture;
use crate::text::{debug_quoted, debug_text, join, owned, same_text};

verus! {

/// A validated dynamic fixture with its source, trust and runtime declaration.
#[derive(Clone, Debug)]
pub struct DynamicUiDocument {
    pub fixture: FixtureEnvelope,
    pub source: DynamicUiSourceMetadata,
    pub trust: DynamicUiTrustMetadata,
    pub runtime_document: RuntimeDocumentDeclaration,
}

/// Whether a runtime declaration is the one the bridge builds for a fixture.
pub open spec fn declares(document: RuntimeDocumentDeclaration, f: FixtureEnvelopeView) -> bool {
    &&& document.fixture_id@ == f.fixture_id
    &&& document.component_id@ == f.component_id
    &&& document.root_node_id@ == f.root_node_id
    &&& document.node_ids@.len() == 1
    &&& document.node_ids@[0]@ == f.root_node_id
}

/// Whether a document is the loading of fixture `f` from `source` with `trust`.
pub open spec fn loaded(
    document: DynamicUiDocument,
    f: FixtureEnvelopeView,
    source: DynamicUiSourceMetadata,
    trust: DynamicUiTrustMetadata,
) -> bool {
    &&& document.fixture@ == f
    &&& document.source == source
    &&& document.trust == trust
    &&& declares(document.runtime_document, f)
}

/// The checks a fixture passes before it is loaded: the dynamic fixture
/// checks, then the runtime bridge's.
pub open spec fn finalize_check(
    f: FixtureEnvelopeView,
    contract: ContractDocument,
    source: DynamicUiSourceMetadata,
    trust: DynamicUiTrustMetadata,
) -> Result<(), DynamicUiDiagnosticView> {
    then_check(dynamic_fixture_check(f, contract, source, trust), runtime_bridge_check(f, source, trust))
}

/// Whatever its source, a fixture loads only when the source delivers
/// validated IR, the trust is not `untrusted`, the fixture matches its
/// contract row, the trust owner is among its owner or proof PRs, its root
/// node follows from its row, and the runtime bridge knows its root node,
/// component and fixture.
pub proof fn lemma_loading_requires_every_check(
    f: FixtureEnvelopeView,
    contract: ContractDocument,
    source: DynamicUiSourceMetadata,
    trust: DynamicUiTrustMetadata,
)
    requires
        finalize_check(f, contract, source, trust) is Ok,
    ensures
        source.schema_path@ == VALIDATED_IR_SCHEMA_PATH@,
        trust.level != DynamicUiTrustLevel::Untrusted,
        fixture_contract_check(f, contract) is Ok,
        f.owner_prs.contains(trust.owner_pr@) || f.proof_prs.contains(trust.owner_pr@),
        f.root_node_id == expected_root_text(f.contract_row_id),
        table_texts(KNOWN_ROOT_NODE_IDS@).contains(f.root_node_id),
        table_texts(KNOWN_COMPONENT_IDS@).contains(f.component_id),
        table_texts(KNOWN_FIXTURE_IDS@).contains(f.fixture_id),
{
}

/// Conversely, a fixture that passes every one of those checks loads: the
/// checks before loading accept exactly the fixtures that pass them all.
pub proof fn lemma_loading_accepts_exactly_when_every_check_passes(
    f: FixtureEnvelopeView,
    contract: ContractDocument,
    source: DynamicUiSourceMetadata,
    trust: DynamicUiTrustMetadata,
)
    ensures
        finalize_check(f, contract, source, trust) is Ok <==> {
            &&& source.schema_path@ == VALIDATED_IR_SCHEMA_PATH@
            &&& trust.level != DynamicUiTrustLevel::Untrusted
            &&& fixture_contract_check(f, contract) is Ok
            &&& (f.owner_prs.contains(trust.owner_pr@) || f.proof_prs.contains(trust.owner_pr@))
            &&& f.root_node_id == "node."@ + f.contract_row_id + ".root"@
            &&& table_texts(KNOWN_ROOT_NODE_IDS@).contains(f.root_node_id)
            &&& table_texts(KNOWN_COMPONENT_IDS@).contains(f.component_id)
            &&& table_texts(KNOWN_FIXTURE_IDS@).contains(f.fixture_id)
        },
{
    lemma_dynamic_fixture_gates(f, contract, source, trust);
}

/// Whether `r` is the outcome of loading fixture `f`.
pub open spec fn load_outcome(
    r: DynamicUiResult<DynamicUiDocument>,
    f: FixtureEnvelopeView,
    contract: ContractDocument,
    source: DynamicUiSourceMetadata,
    trust: DynamicUiTrustMetadata,
) -> bool {
    match finalize_check(f, contract, source, trust) {
        Err(e) => r matches Err(d) && d@ == e,
        Ok(_) => r matches Ok(document) && loaded(document, f, source, trust),
    }
}

/// A codec diagnostic met while reading a source, in that source's context:
/// no node, and the trust owner as the owner.
pub open spec fn read_failure(
    e: CodecDiagnosticView,
    source: DynamicUiSourceMetadata,
    trust: DynamicUiTrustMetadata,
) -> DynamicUiDiagnosticView {
    dynamic_error(e.code, e.path, source, trust, None, Some(trust.owner_pr@), e.message)
}

fn finalize_fixture(
    fixture: FixtureEnvelope,
    contract: &ContractDocument,
    source: DynamicUiSourceMetadata,
    trust: DynamicUiTrustMetadata,
) -> (r: DynamicUiResult<DynamicUiDocument>)
    ensures
        load_outcome(r, fixture@, *contract, source, trust),
{
    if let Err(d) = validate_dynamic_fixture(&fixture, contract, source, trust) {
        return Err(d);
    }
    let runtime_document = match runtime_document_from_fixture(&fixture, source, trust) {
        Ok(document) => document,
        Err(d) => return Err(d),
    };
    Ok(DynamicUiDocument { fixture, source, trust, runtime_document })
}

/// Loads a fixture that an in-memory producer handed over.
pub fn load_in_memory(
    fixture: FixtureEnvelope,
    contract: &ContractDocument,
    source: DynamicUiSourceMetadata,
    trust: DynamicUiTrustMetadata,
) -> (r: DynamicUiResult<DynamicUiDocument>)
    ensures
        load_outcome(r, fixture@, *contract, source, trust),
{
    finalize_fixture(fixture, contract, source, trust)
}

/// Loads a fixture from its JSON debug form: `parsed` is what parsing the
/// text gave (the fixture, or the parser's message).
pub fn load_json_debug(
    parsed: Result<FixtureEnvelope, String>,
    contract: &ContractDocument,
    source: DynamicUiSourceMetadata,
    trust: DynamicUiTrustMetadata,
) -> (r: DynamicUiResult<DynamicUiDocument>)
    ensures
        match parsed {
            Err(message) => r matches Err(d) && d@ == read_failure(json_parse_error(message@), source, trust),
            Ok(fixture) => match fixture_shape(fixture@) {
                Err(e) => r matches Err(d) && d@ == read_failure(e, source, trust),
                Ok(_) => load_outcome(r, fixture@, *contract, source, trust),
            },
        },
{
    let fixture = match decode_json_fixture(parsed) {
        Ok(fixture) => fixture,
        Err(diagnostic) => {
            return Err(
                DynamicUiDiagnostic::from_codec(diagnostic, source, trust, None, Some(owned(trust.owner_pr))),
            );
        },
    };
    finalize_fixture(fixture, contract, source, trust)
}

/// Loads a fixture from its binary form.
pub fn load_binary_bytes(
    bytes: &[u8],
    contract: &ContractDocument,
    source: DynamicUiSourceMetadata,
    trust: DynamicUiTrustMetadata,
) -> (r: DynamicUiResult<DynamicUiDocument>)
    ensures
        match binary_fixture_decoding(bytes@) {
            None => r matches Err(d) && d@.code == "IR_BINARY_PAYLOAD_CORRUPT"@ && d@.path == "$.binary"@
                && d@.severity == DynamicUiDiagnosticSeverity::Error && d@.source == source && d@.trust
                == trust && d@.node_id is None && d@.owner_pr == Some(trust.owner_pr@),
            Some(Err(e)) => r matches Err(d) && d@ == read_failure(e, source, trust),
            Some(Ok(f)) => load_outcome(r, f, *contract, source, trust),
        },
{
    let fixture = match decode_binary_fixture(bytes) {
        Ok(fixture) => fixture,
        Err(diagnostic) => {
            return Err(
                DynamicUiDiagnostic::from_codec(diagnostic, source, trust, None, Some(owned(trust.owner_pr))),
            );
        },
    };
    finalize_fixture(fixture, contract, source, trust)
}

/// What loading a generated fixture of the corpus gives: `parsed` is what
/// parsing its JSON debug text gave, and the loaded fixture must carry the
/// corpus ID.
pub open spec fn generated_load_outcome(
    r: DynamicUiResult<DynamicUiDocument>,
    serialized: SerializedFixture,
    parsed: Result<FixtureEnvelope, String>,
    contract: ContractDocument,
    source: DynamicUiSourceMetadata,
    trust: DynamicUiTrustMetadata,
) -> bool {
    match parsed {
        Err(message) => r matches Err(d) && d@ == read_failure(json_parse_error(message@), source, trust),
        Ok(fixture) => match fixture_shape(fixture@) {
            Err(e) => r matches Err(d) && d@ == read_failure(e, source, trust),
            Ok(_) => match finalize_check(fixture@, contract, source, trust) {
                Err(e) => r matches Err(d) && d@ == e,
                Ok(_) => if fixture@.fixture_id == serialized.id@ {
                    r matches Ok(document) && loaded(document, fixture@, source, trust)
                } else {
                    r matches Err(d) && d@ == dynamic_error(
                        "DYNAMIC_UI_GENERATED_FIXTURE_ID_DRIFT"@,
                        "$.fixture_id"@,
                        source,
                        trust,
                        Some(fixture@.root_node_id),
                        owner_context(fixture@),
                        "generated fixture ID drift: "@ + debug_text(fixture@.fixture_id) + " != "@
                            + debug_text(serialized.id@),
                    )
                },
            },
        },
    }
}

/// Loads a generated fixture of the corpus: `parsed` is what parsing its
/// JSON debug text gave, and the loaded fixture must carry the corpus ID.
pub fn load_generated_fixture(
    serialized: &SerializedFixture,
    parsed: Result<FixtureEnvelope, String>,
    contract: &ContractDocument,
    source: DynamicUiSourceMetadata,
    trust: DynamicUiTrustMetadata,
) -> (r: DynamicUiResult<DynamicUiDocument>)
    ensures
        generated_load_outcome(r, *serialized, parsed, *contract, source, trust),
{
    let document = match load_json_debug(parsed, contract, source, trust) {
        Ok(document) => document,
        Err(d) => return Err(d),
    };
    if same_text(document.fixture.fixture_id.as_str(), serialized.id) {
        return Ok(document);
    }
    let mut message = owned("generated fixture ID drift: ");
    message.append(debug_quoted(document.fixture.fixture_id.as_str()).as_str());
    message.append(" != ");
    message.append(debug_quoted(serialized.id).as_str());
    Err(
        DynamicUiDiagnostic::error(
            "DYNAMIC_UI_GENERATED_FIXTURE_ID_DRIFT",
            "$.fixture_id",
            source,
            trust,
            Some(document.fixture.ir_debug.root_node_id.clone()),
            Some(join(&document.fixture.metadata.owner_prs, ",")),
            message,
        ),
    )
}

/// Loads what a producer produced, once its capabilities were found to
/// cover its source: a production failure is passed on, and a produced
/// fixture is loaded from the producer's source with the producer's trust.
pub fn load_produced_fixture(
    descriptor: DynamicProducerDescriptor,
    produced: DynamicUiResult<FixtureEnvelope>,
    contract: &ContractDocument,
) -> (r: DynamicUiResult<DynamicUiDocument>)
    ensures
        match produced {
            Err(e) => r matches Err(d) && d == e,
            Ok(f) => load_outcome(r, f@, *contract, descriptor.source, descriptor.trust),
        },
{
    match produced {
        Err(d) => Err(d),
        Ok(fixture) => finalize_fixture(fixture, contract, descriptor.source, descriptor.trust),
    }
}

/// Loads the fixture a producer produces: the producer's capabilities must
/// cover its source, and the fixture is then loaded from that source with
/// the producer's trust.  What the producer hands over is its own; whatever
/// it is, an accepted document passed every check of its source.
pub fn load_from_producer<P: DynamicProducer>(producer: &P, contract: &ContractDocument) -> (r:
    DynamicUiResult<DynamicUiDocument>)
    ensures
        ({
            let d = producer.declared_descriptor();
            match capability_set_check(d.capabilities, d.source, d.trust) {
                Err(e) => r matches Err(x) && x@ == e,
                Ok(_) => r matches Ok(document) ==> {
                    &&& document.source == d.source
                    &&& document.trust == d.trust
                    &&& finalize_check(document.fixture@, *contract, d.source, d.trust) is Ok
                    &&& declares(document.runtime_document, document.fixture@)
                },
            }
        }),
{
    let descriptor = producer.descriptor();
    if let Err(d) = validate_producer_capabilities(descriptor) {
        return Err(d);
    }
    let produced = producer.produce_fixture();
    load_produced_fixture(descriptor, produced, contract)
}

} // verus!
