//! A mock backend that records the operations it accepts, the sample
//! operations that cover every family, and the snapshot of both.

use vstd::prelude::*;

use crate::backend::capabilities::{
    capability_text, fixture_tag_backend_decisions, fixture_tag_decision_table, target_text,
    BackendCapability, BackendCapabilityDecision, BackendCapabilitySet, BackendTarget,
    FixtureTagBackendDecision, FixtureTagBackendDecisionView,
};
use crate::backend::diagnostics::{backend_outcome, BackendResult};
use crate::backend::operations::{
    family_capability, family_text, operation_family, AnimationLifecycle, BackendOperation,
    BackendOperationFamily, TransactionPhase,
};
use crate::backend::validator::{
    lemma_required_families_cover_every_family, operation_capability_check, operation_families,
    required_families_check, validate_operation_capabilities,
};
use crate::text::{join, joined, owned, texts};

verus! {

/// What negotiating a capability with a capability set decides.
pub open spec fn negotiation(set: BackendCapabilitySet, capability: BackendCapability) -> BackendCapabilityDecision {
    if set.capabilities@.contains(capability) {
        BackendCapabilityDecision::Supported(capability)
    } else {
        BackendCapabilityDecision::Unsupported(capability)
    }
}

/// A backend that renders operations for a target.
pub trait RenderBackend {
    /// The capabilities the backend declares.
    spec fn capability_set(&self) -> BackendCapabilitySet;

    fn target(&self) -> BackendTarget;

    fn capabilities(&self) -> (r: BackendCapabilitySet)
        ensures
            r == self.capability_set(),
    ;

    /// Whether the backend supports a capability.
    fn negotiate(&self, capability: BackendCapability) -> (r: BackendCapabilityDecision)
        ensures
            r == negotiation(self.capability_set(), capability),
    {
        if self.capabilities().supports(capability) {
            BackendCapabilityDecision::Supported(capability)
        } else {
            BackendCapabilityDecision::Unsupported(capability)
        }
    }

    fn apply(&mut self, operation: BackendOperation) -> (r: BackendResult<()>);
}

#[derive(Clone, Debug)]
pub struct MockBackend {
    capabilities: BackendCapabilitySet,
    operations: Vec<BackendOperation>,
}

/// A mock backend as its declared capabilities and the operations it has accepted.
pub struct MockBackendView {
    pub capabilities: BackendCapabilitySet,
    pub operations: Seq<BackendOperation>,
}

impl View for MockBackend {
    type V = MockBackendView;

    closed spec fn view(&self) -> MockBackendView {
        MockBackendView { capabilities: self.capabilities, operations: self.operations@ }
    }
}

impl MockBackend {
    /// A mock backend with the given capabilities that has accepted nothing.
    pub fn new(capabilities: BackendCapabilitySet) -> (r: Self)
        ensures
            r@.capabilities == capabilities,
            r@.operations == Seq::<BackendOperation>::empty(),
    {
        MockBackend { capabilities, operations: Vec::new() }
    }

    /// The operations accepted so far, in order.
    pub fn operations(&self) -> (r: &[BackendOperation])
        ensures
            r@ == self@.operations,
    {
        self.operations.as_slice()
    }
}

impl RenderBackend for MockBackend {
    open spec fn capability_set(&self) -> BackendCapabilitySet {
        self@.capabilities
    }

    fn target(&self) -> (r: BackendTarget)
        ensures
            r == self@.capabilities.target,
    {
        self.capabilities.target
    }

    fn capabilities(&self) -> (r: BackendCapabilitySet)
        ensures
            r == self@.capabilities,
    {
        self.capabilities
    }

    /// Accepts an operation the declared capabilities allow, and records it.
    fn apply(&mut self, operation: BackendOperation) -> (r: BackendResult<()>)
        ensures
            backend_outcome(r) == operation_capability_check(operation, old(self)@.capabilities),
            final(self)@.capabilities == old(self)@.capabilities,
            final(self)@.operations == if r is Ok {
                old(self)@.operations.push(operation)
            } else {
                old(self)@.operations
            },
    {
        let r = validate_operation_capabilities(&operation, self.capabilities);
        if r.is_err() {
            return r;
        }
        self.operations.push(operation);
        Ok(())
    }
}

/// The sample operations: one of every family.
pub open spec fn sample_operations() -> Seq<BackendOperation> {
    seq![
        BackendOperation::Create,
        BackendOperation::Root,
        BackendOperation::Move,
        BackendOperation::AttributeStyle,
        BackendOperation::Animation(AnimationLifecycle::Start),
        BackendOperation::Animation(AnimationLifecycle::End),
        BackendOperation::Animation(AnimationLifecycle::Cancel),
        BackendOperation::LayoutCallback,
        BackendOperation::DrawCallback,
        BackendOperation::VisibilityObserver,
        BackendOperation::FrameObserver,
        BackendOperation::AssetLoad,
        BackendOperation::TextMeasure,
        BackendOperation::NativeViewMount,
        BackendOperation::WebViewMount,
        BackendOperation::TransactionGroup(TransactionPhase::Commit),
        BackendOperation::Destroy,
    ]
}

/// Operations that exercise every operation family, in a rendering order.
pub fn sample_backend_operations() -> (r: Vec<BackendOperation>)
    ensures
        r@ == sample_operations(),
{
    let mut ops: Vec<BackendOperation> = Vec::new();
    ops.push(BackendOperation::Create);
    ops.push(BackendOperation::Root);
    ops.push(BackendOperation::Move);
    ops.push(BackendOperation::AttributeStyle);
    ops.push(BackendOperation::Animation(AnimationLifecycle::Start));
    ops.push(BackendOperation::Animation(AnimationLifecycle::End));
    ops.push(BackendOperation::Animation(AnimationLifecycle::Cancel));
    ops.push(BackendOperation::LayoutCallback);
    ops.push(BackendOperation::DrawCallback);
    ops.push(BackendOperation::VisibilityObserver);
    ops.push(BackendOperation::FrameObserver);
    ops.push(BackendOperation::AssetLoad);
    ops.push(BackendOperation::TextMeasure);
    ops.push(BackendOperation::NativeViewMount);
    ops.push(BackendOperation::WebViewMount);
    ops.push(BackendOperation::TransactionGroup(TransactionPhase::Commit));
    ops.push(BackendOperation::Destroy);
    assert(ops@ =~= sample_operations());
    ops
}

/// The sample operations hold one operation of every family, and so pass
/// the coverage check.
pub proof fn lemma_sample_operations_cover_every_family()
    ensures
        forall|family: BackendOperationFamily| #[trigger] operation_families(sample_operations()).contains(family),
        required_families_check(sample_operations()) is Ok,
{
    let ops = sample_operations();
    let present = operation_families(ops);
    assert forall|family: BackendOperationFamily| #[trigger] present.contains(family) by {
        let k: int = match family {
            BackendOperationFamily::Create => 0,
            BackendOperationFamily::Root => 1,
            BackendOperationFamily::Move => 2,
            BackendOperationFamily::AttributeStyle => 3,
            BackendOperationFamily::AnimationStart => 4,
            BackendOperationFamily::AnimationEnd => 5,
            BackendOperationFamily::AnimationCancel => 6,
            BackendOperationFamily::LayoutCallback => 7,
            BackendOperationFamily::DrawCallback => 8,
            BackendOperationFamily::VisibilityObserver => 9,
            BackendOperationFamily::FrameObserver => 10,
            BackendOperationFamily::AssetLoad => 11,
            BackendOperationFamily::TextMeasure => 12,
            BackendOperationFamily::NativeViewMount => 13,
            BackendOperationFamily::WebViewMount => 14,
            BackendOperationFamily::TransactionGroup => 15,
            BackendOperationFamily::Destroy => 16,
        };
        assert(present[k] == family);
    }
    lemma_required_families_cover_every_family(ops);
}

/// The snapshot line of an operation.
pub open spec fn operation_line(operation: BackendOperation) -> Seq<char> {
    "- family="@ + family_text(operation_family(operation)) + " capability="@ + capability_text(
        family_capability(operation_family(operation)),
    )
}

/// The names of operation families, in order.
pub open spec fn family_texts(families: Seq<BackendOperationFamily>) -> Seq<Seq<char>> {
    families.map_values(|f: BackendOperationFamily| family_text(f))
}

/// The snapshot line of a fixture tag decision.
pub open spec fn decision_line(d: FixtureTagBackendDecisionView) -> Seq<char> {
    "- tag="@ + d.fixture_tag + " target="@ + target_text(d.target) + " capability="@
        + capability_text(d.capability) + " families="@ + joined(
        family_texts(d.operation_families),
        ","@,
    )
}

/// The mock backend snapshot: a header, a line per sample operation, then a
/// line per fixture tag decision, each line ending in a newline.
pub open spec fn mock_snapshot_text() -> Seq<char> {
    joined(
        seq!["backend_operation_snapshot_v1"@, "operations:"@] + sample_operations().map_values(
            |op: BackendOperation| operation_line(op),
        ) + seq!["fixture_tag_decisions:"@] + fixture_tag_decision_table().map_values(
            |d: FixtureTagBackendDecisionView| decision_line(d),
        ),
        "\n"@,
    ) + "\n"@
}

fn decision_families_text(decision: &FixtureTagBackendDecision) -> (r: String)
    ensures
        r@ == joined(family_texts(decision.operation_families@), ","@),
{
    let mut names: Vec<String> = Vec::new();
    let mut i: usize = 0;
    while i < decision.operation_families.len()
        invariant
            i <= decision.operation_families@.len(),
            names@.len() == i,
            forall|j: int| 0 <= j < i ==> (#[trigger] names@[j])@ == family_text(decision.operation_families@[j]),
        decreases decision.operation_families@.len() - i,
    {
        names.push(owned(decision.operation_families[i].as_str()));
        i = i + 1;
    }
    assert(texts(names@) =~= family_texts(decision.operation_families@));
    join(&names, ",")
}

/// The snapshot of the sample operations and the fixture tag decisions.
pub fn mock_backend_snapshot() -> (r: String)
    ensures
        r@ == mock_snapshot_text(),
{
    let operations = sample_backend_operations();
    let decisions = fixture_tag_backend_decisions();
    let ghost op_lines = sample_operations().map_values(|op: BackendOperation| operation_line(op));
    let ghost dec_lines = fixture_tag_decision_table().map_values(
        |d: FixtureTagBackendDecisionView| decision_line(d),
    );
    let mut lines: Vec<String> = Vec::new();
    lines.push(owned("backend_operation_snapshot_v1"));
    lines.push(owned("operations:"));
    let mut i: usize = 0;
    while i < operations.len()
        invariant
            i <= operations@.len(),
            operations@ == sample_operations(),
            op_lines == sample_operations().map_values(|op: BackendOperation| operation_line(op)),
            texts(lines@) == seq!["backend_operation_snapshot_v1"@, "operations:"@] + op_lines.take(
                i as int,
            ),
        decreases operations@.len() - i,
    {
        let family = operations[i].family();
        let mut line = owned("- family=");
        line.append(family.as_str());
        line.append(" capability=");
        line.append(family.required_capability().as_str());
        let ghost before = texts(lines@);
        let ghost added = line@;
        lines.push(line);
        proof {
            assert(added == op_lines[i as int]);
            assert(texts(lines@) =~= before.push(added));
            assert(op_lines.take(i + 1) =~= op_lines.take(i as int).push(op_lines[i as int]));
            assert(texts(lines@) =~= seq!["backend_operation_snapshot_v1"@, "operations:"@]
                + op_lines.take(i + 1));
        }
        i = i + 1;
    }
    lines.push(owned("fixture_tag_decisions:"));
    let ghost head = seq!["backend_operation_snapshot_v1"@, "operations:"@] + op_lines + seq![
        "fixture_tag_decisions:"@,
    ];
    proof {
        assert(op_lines.take(operations@.len() as int) =~= op_lines);
        assert(texts(lines@) =~= head);
    }
    let mut k: usize = 0;
    while k < decisions.len()
        invariant
            k <= decisions@.len(),
            decisions@.map_values(|d: FixtureTagBackendDecision| d@) == fixture_tag_decision_table(),
            dec_lines == fixture_tag_decision_table().map_values(
                |d: FixtureTagBackendDecisionView| decision_line(d),
            ),
            texts(lines@) == head + dec_lines.take(k as int),
        decreases decisions@.len() - k,
    {
        let decision = &decisions[k];
        let mut line = owned("- tag=");
        line.append(decision.fixture_tag);
        line.append(" target=");
        line.append(decision.target.as_str());
        line.append(" capability=");
        line.append(decision.capability.as_str());
        line.append(" families=");
        line.append(decision_families_text(decision).as_str());
        let ghost before = texts(lines@);
        let ghost added = line@;
        lines.push(line);
        proof {
            assert(decisions@[k as int]@ == fixture_tag_decision_table()[k as int]);
            assert(added == dec_lines[k as int]);
            assert(texts(lines@) =~= before.push(added));
            assert(dec_lines.take(k + 1) =~= dec_lines.take(k as int).push(dec_lines[k as int]));
            assert(decisions@.map_values(|d: FixtureTagBackendDecision| d@)[k as int] == decisions@[k as int]@);
            assert(texts(lines@) =~= head + dec_lines.take(k + 1));
        }
        k = k + 1;
    }
    proof {
        assert(dec_lines.take(decisions@.len() as int) =~= dec_lines);
    }
    let mut out = join(&lines, "\n");
    out.append("\n");
    out
}

} // verus!
