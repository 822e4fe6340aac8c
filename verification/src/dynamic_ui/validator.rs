//! Checks of dynamic producers and dynamic fixtures before they reach the
//! runtime bridge.

use vstd::prelude::*;

use crate::codec::json_debug::{ContractDocument, FixtureEnvelope, FixtureEnvelopeView};
use crate::codec::validator::{fixture_contract_check, validate_fixture_against_contract};
use crate::dynamic_ui::capabilities::{
    negotiate_capabilities, negotiation_list, producer_capability_text, required_capability_list,
    DynamicUiCapabilityDecision, DynamicUiProducerCapability, DynamicUiProducerCapabilitySet,
};
use crate::dynamic_ui::diagnostics::{
    dynamic_error, dynamic_outcome, DynamicUiDiagnostic, DynamicUiDiagnosticView, DynamicUiResult,
    DYNAMIC_UI_CAPABILITY_UNSUPPORTED, DYNAMIC_UI_NODE_ID_DRIFT, DYNAMIC_UI_OWNER_PR_MISMATCH,
    DYNAMIC_UI_SCHEMA_PATH_INVALID, DYNAMIC_UI_SOURCE_UNTRUSTED,
};
use crate::dynamic_ui::producer::DynamicProducerDescriptor;
use crate::dynamic_ui::source::{source_kind_id, DynamicUiSourceMetadata, VALIDATED_IR_SCHEMA_PATH};
use crate::dynamic_ui::trust::{DynamicUiTrustLevel, DynamicUiTrustMetadata};
use crate::text::{debug_quoted, debug_text, join, joined, owned, same_text, texts};

verus! {

/// The first decision, from position `i` on, that is not supported.
pub open spec fn first_unsupported(decisions: Seq<DynamicUiCapabilityDecision>, i: int) -> Option<
    DynamicUiCapabilityDecision,
>
    decreases decisions.len() - i,
{
    if i < 0 || i >= decisions.len() {
        None
    } else if !decisions[i].supported {
        Some(decisions[i])
    } else {
        first_unsupported(decisions, i + 1)
    }
}

/// The check that a producer's capabilities cover what its source needs.
pub open spec fn capability_set_check(
    capabilities: DynamicUiProducerCapabilitySet,
    source: DynamicUiSourceMetadata,
    trust: DynamicUiTrustMetadata,
) -> Result<(), DynamicUiDiagnosticView> {
    match first_unsupported(negotiation_list(capabilities, source), 0) {
        None => Ok(()),
        Some(decision) => Err(
            dynamic_error(
                DYNAMIC_UI_CAPABILITY_UNSUPPORTED@,
                "$.producer.capabilities[]"@,
                source,
                trust,
                None,
                Some(trust.owner_pr@),
                "dynamic producer lacks "@ + producer_capability_text(decision.capability)
                    + " capability"@,
            ),
        ),
    }
}

proof fn lemma_first_unsupported_none(decisions: Seq<DynamicUiCapabilityDecision>, i: int)
    requires
        0 <= i <= decisions.len(),
    ensures
        first_unsupported(decisions, i) is None <==> forall|j: int|
            i <= j < decisions.len() ==> (#[trigger] decisions[j]).supported,
    decreases decisions.len() - i,
{
    if i < decisions.len() {
        lemma_first_unsupported_none(decisions, i + 1);
    }
}

/// A producer passes the capability check exactly when it holds every
/// capability that its source needs.
pub proof fn lemma_capability_check_accepts_iff_covered(
    capabilities: DynamicUiProducerCapabilitySet,
    source: DynamicUiSourceMetadata,
    trust: DynamicUiTrustMetadata,
)
    ensures
        capability_set_check(capabilities, source, trust) is Ok <==> forall|c: DynamicUiProducerCapability|
            required_capability_list(source).contains(c) ==> capabilities.capabilities@.contains(c),
{
    let required = required_capability_list(source);
    let decisions = negotiation_list(capabilities, source);
    lemma_first_unsupported_none(decisions, 0);
    if capability_set_check(capabilities, source, trust) is Ok {
        assert forall|c: DynamicUiProducerCapability| required.contains(c) implies capabilities.capabilities@.contains(c) by {
            let j = choose|j: int| 0 <= j < required.len() && required[j] == c;
            assert(decisions[j].supported);
        }
    } else {
        let j = choose|j: int| 0 <= j < decisions.len() && !(#[trigger] decisions[j]).supported;
        assert(required.contains(required[j]));
    }
}

/// What each source kind asks of its producer: first the input capability of
/// its own kind (JSON debug input for a JSON debug source, binary bytes input
/// for a binary source, generated fixture input for a generated fixture,
/// in-memory input for an in-memory producer), then runtime validation, the
/// runtime bridge and the mock backend sink.  A producer passes the check
/// exactly when it holds those four, and is otherwise refused with
/// `DYNAMIC_UI_CAPABILITY_UNSUPPORTED`.
pub proof fn lemma_source_capability_table(
    capabilities: DynamicUiProducerCapabilitySet,
    source: DynamicUiSourceMetadata,
    trust: DynamicUiTrustMetadata,
)
    ensures
        ({
            let required = required_capability_list(source);
            let has = |c: DynamicUiProducerCapability| capabilities.capabilities@.contains(c);
            let base = has(DynamicUiProducerCapability::RuntimeValidation) && has(
                DynamicUiProducerCapability::RuntimeBridge,
            ) && has(DynamicUiProducerCapability::MockBackendSink);
            let r = capability_set_check(capabilities, source, trust);
            &&& required.len() == 4
            &&& source.kind is JsonDebug ==> required[0] == DynamicUiProducerCapability::JsonDebugInput
            &&& source.kind is BinaryBytes ==> required[0]
                == DynamicUiProducerCapability::BinaryBytesInput
            &&& source.kind is GeneratedFixture ==> required[0]
                == DynamicUiProducerCapability::GeneratedFixtureInput
            &&& source.kind is InMemory ==> required[0] == DynamicUiProducerCapability::InMemoryInput
            &&& required[1] == DynamicUiProducerCapability::RuntimeValidation
            &&& required[2] == DynamicUiProducerCapability::RuntimeBridge
            &&& required[3] == DynamicUiProducerCapability::MockBackendSink
            &&& source.kind is JsonDebug ==> (r is Ok <==> has(
                DynamicUiProducerCapability::JsonDebugInput,
            ) && base)
            &&& source.kind is BinaryBytes ==> (r is Ok <==> has(
                DynamicUiProducerCapability::BinaryBytesInput,
            ) && base)
            &&& source.kind is GeneratedFixture ==> (r is Ok <==> has(
                DynamicUiProducerCapability::GeneratedFixtureInput,
            ) && base)
            &&& source.kind is InMemory ==> (r is Ok <==> has(
                DynamicUiProducerCapability::InMemoryInput,
            ) && base)
            &&& r is Err ==> r->Err_0.code == DYNAMIC_UI_CAPABILITY_UNSUPPORTED@
        }),
{
    lemma_capability_check_accepts_iff_covered(capabilities, source, trust);
    let required = required_capability_list(source);
    assert(required.contains(required[0]));
    assert(required.contains(required[1]));
    assert(required.contains(required[2]));
    assert(required.contains(required[3]));
}

/// Checks that a producer's capabilities cover what its source needs; the
/// first missing capability, in the required order, is reported.
pub fn validate_capability_set(
    capabilities: DynamicUiProducerCapabilitySet,
    source: DynamicUiSourceMetadata,
    trust: DynamicUiTrustMetadata,
) -> (r: DynamicUiResult<()>)
    ensures
        dynamic_outcome(r) == capability_set_check(capabilities, source, trust),
{
    let decisions = negotiate_capabilities(capabilities, source);
    let ghost all = decisions@;
    let mut i: usize = 0;
    while i < decisions.len()
        invariant
            i <= all.len(),
            all == decisions@,
            all == negotiation_list(capabilities, source),
            first_unsupported(all, 0) == first_unsupported(all, i as int),
        decreases all.len() - i,
    {
        let decision = decisions[i];
        if !decision.supported {
            let mut message = owned("dynamic producer lacks ");
            message.append(decision.capability.as_str());
            message.append(" capability");
            return Err(
                DynamicUiDiagnostic::error(
                    DYNAMIC_UI_CAPABILITY_UNSUPPORTED,
                    "$.producer.capabilities[]",
                    source,
                    trust,
                    None,
                    Some(owned(trust.owner_pr)),
                    message,
                ),
            );
        }
        i = i + 1;
    }
    Ok(())
}

/// Checks that a producer's declared capabilities cover what its source needs.
pub fn validate_producer_capabilities(descriptor: DynamicProducerDescriptor) -> (r: DynamicUiResult<()>)
    ensures
        dynamic_outcome(r) == capability_set_check(
            descriptor.capabilities,
            descriptor.source,
            descriptor.trust,
        ),
{
    validate_capability_set(descriptor.capabilities, descriptor.source, descriptor.trust)
}

/// The root node ID that a contract row's dynamic fixture must carry.
pub open spec fn expected_root_text(contract_row_id: Seq<char>) -> Seq<char> {
    "node."@ + contract_row_id + ".root"@
}

/// The owner context that dynamic diagnostics carry: the owner PRs, joined by commas.
pub open spec fn owner_context(f: FixtureEnvelopeView) -> Option<Seq<char>> {
    Some(joined(f.owner_prs, ","@))
}

/// The checks of a dynamic fixture, in order: the source delivers validated
/// IR, the source is trusted, the fixture matches its contract row, the
/// trust owner is among the fixture's owner or proof PRs, and the root node
/// ID follows from the contract row.
pub open spec fn dynamic_fixture_check(
    f: FixtureEnvelopeView,
    contract: ContractDocument,
    source: DynamicUiSourceMetadata,
    trust: DynamicUiTrustMetadata,
) -> Result<(), DynamicUiDiagnosticView> {
    let node = Some(f.root_node_id);
    let owners = owner_context(f);
    if source.schema_path@ != VALIDATED_IR_SCHEMA_PATH@ {
        Err(
            dynamic_error(
                DYNAMIC_UI_SCHEMA_PATH_INVALID@,
                "$.source.schema_path"@,
                source,
                trust,
                node,
                owners,
                "dynamic source schema path "@ + debug_text(source.schema_path@) + " is not "@
                    + VALIDATED_IR_SCHEMA_PATH@,
            ),
        )
    } else if trust.level == DynamicUiTrustLevel::Untrusted {
        Err(
            dynamic_error(
                DYNAMIC_UI_SOURCE_UNTRUSTED@,
                "$.trust.level"@,
                source,
                trust,
                node,
                owners,
                "dynamic source "@ + source_kind_id(source.kind) + " is untrusted"@,
            ),
        )
    } else {
        match fixture_contract_check(f, contract) {
            Err(d) => Err(
                dynamic_error(d.code, d.path, source, trust, node, owners, d.message),
            ),
            Ok(_) => if !f.owner_prs.contains(trust.owner_pr@) && !f.proof_prs.contains(
                trust.owner_pr@,
            ) {
                Err(
                    dynamic_error(
                        DYNAMIC_UI_OWNER_PR_MISMATCH@,
                        "$.metadata.owner_prs"@,
                        source,
                        trust,
                        node,
                        owners,
                        "trust owner "@ + trust.owner_pr@ + " is not declared for fixture "@
                            + f.fixture_id,
                    ),
                )
            } else if f.root_node_id != expected_root_text(f.contract_row_id) {
                Err(
                    dynamic_error(
                        DYNAMIC_UI_NODE_ID_DRIFT@,
                        "$.ir_debug.root_node_id"@,
                        source,
                        trust,
                        node,
                        owners,
                        "dynamic root node drift: "@ + debug_text(f.root_node_id) + " != "@
                            + debug_text(expected_root_text(f.contract_row_id)),
                    ),
                )
            } else {
                Ok(())
            },
        }
    }
}

/// The trust owner check: a fixture from a source that delivers validated IR
/// and is trusted, that matches its contract row and carries the root node
/// its contract row names, is accepted exactly when the trust owner is one of
/// its owner PRs or one of its proof PRs; otherwise it is refused with
/// `DYNAMIC_UI_OWNER_PR_MISMATCH` at the owner PRs.
pub proof fn lemma_owner_among_owner_or_proof_prs(
    f: FixtureEnvelopeView,
    contract: ContractDocument,
    source: DynamicUiSourceMetadata,
    trust: DynamicUiTrustMetadata,
)
    requires
        source.schema_path@ == VALIDATED_IR_SCHEMA_PATH@,
        trust.level != DynamicUiTrustLevel::Untrusted,
        fixture_contract_check(f, contract) is Ok,
        f.root_node_id == "node."@ + f.contract_row_id + ".root"@,
    ensures
        ({
            let r = dynamic_fixture_check(f, contract, source, trust);
            let listed = f.owner_prs.contains(trust.owner_pr@) || f.proof_prs.contains(
                trust.owner_pr@,
            );
            &&& (r is Ok <==> listed)
            &&& !listed ==> r->Err_0.code == DYNAMIC_UI_OWNER_PR_MISMATCH@ && r->Err_0.path
                == "$.metadata.owner_prs"@
        }),
{
}

/// The gates of a dynamic fixture, in order: a source whose schema path is
/// not the validated IR path is refused with `DYNAMIC_UI_SCHEMA_PATH_INVALID`;
/// an untrusted source with `DYNAMIC_UI_SOURCE_UNTRUSTED`; a fixture that
/// fails its contract check with that check's code; a trust owner in neither
/// the owner nor the proof PRs with `DYNAMIC_UI_OWNER_PR_MISMATCH`; a root
/// node other than `node.<row>.root` with `DYNAMIC_UI_NODE_ID_DRIFT`.  A
/// fixture that passes every gate is accepted, and every refusal names the
/// fixture's root node and its owner PRs joined by commas.
pub proof fn lemma_dynamic_fixture_gates(
    f: FixtureEnvelopeView,
    contract: ContractDocument,
    source: DynamicUiSourceMetadata,
    trust: DynamicUiTrustMetadata,
)
    ensures
        ({
            let r = dynamic_fixture_check(f, contract, source, trust);
            let validated = source.schema_path@ == VALIDATED_IR_SCHEMA_PATH@;
            let trusted = trust.level != DynamicUiTrustLevel::Untrusted;
            let matches_row = fixture_contract_check(f, contract) is Ok;
            let listed = f.owner_prs.contains(trust.owner_pr@) || f.proof_prs.contains(
                trust.owner_pr@,
            );
            let rooted = f.root_node_id == "node."@ + f.contract_row_id + ".root"@;
            &&& (r is Ok <==> validated && trusted && matches_row && listed && rooted)
            &&& !validated ==> r->Err_0.code == DYNAMIC_UI_SCHEMA_PATH_INVALID@
            &&& validated && !trusted ==> r->Err_0.code == DYNAMIC_UI_SOURCE_UNTRUSTED@
            &&& validated && trusted && !matches_row ==> r->Err_0.code == fixture_contract_check(
                f,
                contract,
            )->Err_0.code
            &&& validated && trusted && matches_row && !listed ==> r->Err_0.code
                == DYNAMIC_UI_OWNER_PR_MISMATCH@
            &&& validated && trusted && matches_row && listed && !rooted ==> r->Err_0.code
                == DYNAMIC_UI_NODE_ID_DRIFT@
            &&& r is Err ==> r->Err_0.node_id == Some(f.root_node_id) && r->Err_0.owner_pr == Some(
                joined(f.owner_prs, ","@),
            ) && r->Err_0.source == source && r->Err_0.trust == trust
        }),
{
}

fn lists_text(items: &[String], value: &str) -> (r: bool)
    ensures
        r == texts(items@).contains(value@),
{
    let mut i: usize = 0;
    while i < items.len()
        invariant
            i <= items@.len(),
            forall|j: int| 0 <= j < i ==> texts(items@)[j] != value@,
        decreases items@.len() - i,
    {
        if same_text(items[i].as_str(), value) {
            assert(texts(items@)[i as int] == value@);
            return true;
        }
        i = i + 1;
    }
    false
}

/// Checks a dynamic fixture from a source with the given trust: the source
/// must deliver validated IR and be trusted, the fixture must match its
/// contract row, name the trust owner among its owner or proof PRs, and
/// carry the root node ID that follows from its contract row.
pub fn validate_dynamic_fixture(
    fixture: &FixtureEnvelope,
    contract: &ContractDocument,
    source: DynamicUiSourceMetadata,
    trust: DynamicUiTrustMetadata,
) -> (r: DynamicUiResult<()>)
    ensures
        dynamic_outcome(r) == dynamic_fixture_check(fixture@, *contract, source, trust),
{
    if !same_text(source.schema_path, VALIDATED_IR_SCHEMA_PATH) {
        let mut message = owned("dynamic source schema path ");
        message.append(debug_quoted(source.schema_path).as_str());
        message.append(" is not ");
        message.append(VALIDATED_IR_SCHEMA_PATH);
        return Err(
            DynamicUiDiagnostic::error(
                DYNAMIC_UI_SCHEMA_PATH_INVALID,
                "$.source.schema_path",
                source,
                trust,
                Some(fixture.ir_debug.root_node_id.clone()),
                Some(join(&fixture.metadata.owner_prs, ",")),
                message,
            ),
        );
    }
    if !trust.level.is_trusted() {
        let mut message = owned("dynamic source ");
        message.append(source.source_id());
        message.append(" is untrusted");
        return Err(
            DynamicUiDiagnostic::error(
                DYNAMIC_UI_SOURCE_UNTRUSTED,
                "$.trust.level",
                source,
                trust,
                Some(fixture.ir_debug.root_node_id.clone()),
                Some(join(&fixture.metadata.owner_prs, ",")),
                message,
            ),
        );
    }
    if let Err(diagnostic) = validate_fixture_against_contract(fixture, contract) {
        return Err(
            DynamicUiDiagnostic::from_codec(
                diagnostic,
                source,
                trust,
                Some(fixture.ir_debug.root_node_id.clone()),
                Some(join(&fixture.metadata.owner_prs, ",")),
            ),
        );
    }
    if !lists_text(&fixture.metadata.owner_prs, trust.owner_pr) && !lists_text(
        &fixture.metadata.proof_prs,
        trust.owner_pr,
    ) {
        let mut message = owned("trust owner ");
        message.append(trust.owner_pr);
        message.append(" is not declared for fixture ");
        message.append(fixture.fixture_id.as_str());
        return Err(
            DynamicUiDiagnostic::error(
                DYNAMIC_UI_OWNER_PR_MISMATCH,
                "$.metadata.owner_prs",
                source,
                trust,
                Some(fixture.ir_debug.root_node_id.clone()),
                Some(join(&fixture.metadata.owner_prs, ",")),
                message,
            ),
        );
    }
    let mut expected_root = owned("node.");
    expected_root.append(fixture.contract_row_id.as_str());
    expected_root.append(".root");
    if fixture.ir_debug.root_node_id != expected_root {
        let mut message = owned("dynamic root node drift: ");
        message.append(debug_quoted(fixture.ir_debug.root_node_id.as_str()).as_str());
        message.append(" != ");
        message.append(debug_quoted(expected_root.as_str()).as_str());
        return Err(
            DynamicUiDiagnostic::error(
                DYNAMIC_UI_NODE_ID_DRIFT,
                "$.ir_debug.root_node_id",
                source,
                trust,
                Some(fixture.ir_debug.root_node_id.clone()),
                Some(join(&fixture.metadata.owner_prs, ",")),
                message,
            ),
        );
    }
    Ok(())
}

} // verus!
