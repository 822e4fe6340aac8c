use vstd::prelude::*;

use crate::dynamic_ui::source::{DynamicUiSourceKind, DynamicUiSourceMetadata};

verus! {

#[derive(Clone, Copy, Debug, PartialEq, Eq, Structural)]
pub enum DynamicUiProducerCapability {
    JsonDebugInput,
    BinaryBytesInput,
    GeneratedFixtureInput,
    InMemoryInput,
    RuntimeValidation,
    RuntimeBridge,
    MockBackendSink,
}

/// The name of a producer capability.
pub open spec fn producer_capability_text(capability: DynamicUiProducerCapability) -> Seq<char> {
    match capability {
        DynamicUiProducerCapability::JsonDebugInput => "json_debug_input"@,
        DynamicUiProducerCapability::BinaryBytesInput => "binary_bytes_input"@,
        DynamicUiProducerCapability::GeneratedFixtureInput => "generated_fixture_input"@,
        DynamicUiProducerCapability::InMemoryInput => "in_memory_input"@,
        DynamicUiProducerCapability::RuntimeValidation => "runtime_validation"@,
        DynamicUiProducerCapability::RuntimeBridge => "runtime_bridge"@,
        DynamicUiProducerCapability::MockBackendSink => "mock_backend_sink"@,
    }
}

impl DynamicUiProducerCapability {
    pub fn as_str(self) -> (r: &'static str)
        ensures
            r@ == producer_capability_text(self),
    {
        match self {
            DynamicUiProducerCapability::JsonDebugInput => "json_debug_input",
            DynamicUiProducerCapability::BinaryBytesInput => "binary_bytes_input",
            DynamicUiProducerCapability::GeneratedFixtureInput => "generated_fixture_input",
            DynamicUiProducerCapability::InMemoryInput => "in_memory_input",
            DynamicUiProducerCapability::RuntimeValidation => "runtime_validation",
            DynamicUiProducerCapability::RuntimeBridge => "runtime_bridge",
            DynamicUiProducerCapability::MockBackendSink => "mock_backend_sink",
        }
    }
}

/// Every producer capability, in declaration order.
pub const ALL_DYNAMIC_UI_CAPABILITIES: [DynamicUiProducerCapability; 7] = [
    DynamicUiProducerCapability::JsonDebugInput,
    DynamicUiProducerCapability::BinaryBytesInput,
    DynamicUiProducerCapability::GeneratedFixtureInput,
    DynamicUiProducerCapability::InMemoryInput,
    DynamicUiProducerCapability::RuntimeValidation,
    DynamicUiProducerCapability::RuntimeBridge,
    DynamicUiProducerCapability::MockBackendSink,
];

/// The capabilities every dynamic source needs besides its input.
pub const BASE_DYNAMIC_UI_CAPABILITIES: [DynamicUiProducerCapability; 3] = [
    DynamicUiProducerCapability::RuntimeValidation,
    DynamicUiProducerCapability::RuntimeBridge,
    DynamicUiProducerCapability::MockBackendSink,
];

#[derive(Clone, Copy, Debug, PartialEq, Eq)]
pub struct DynamicUiProducerCapabilitySet {
    pub capabilities: &'static [DynamicUiProducerCapability],
}

impl DynamicUiProducerCapabilitySet {
    pub fn new(capabilities: &'static [DynamicUiProducerCapability]) -> (r: Self)
        ensures
            r.capabilities@ == capabilities@,
    {
        DynamicUiProducerCapabilitySet { capabilities }
    }

    /// The set of every producer capability.
    pub fn all() -> (r: Self)
        ensures
            r.capabilities@ == ALL_DYNAMIC_UI_CAPABILITIES@,
            forall|c: DynamicUiProducerCapability| r.capabilities@.contains(c),
    {
        let r = DynamicUiProducerCapabilitySet { capabilities: &ALL_DYNAMIC_UI_CAPABILITIES };
        assert forall|c: DynamicUiProducerCapability| r.capabilities@.contains(c) by {
            assert(r.capabilities@ == ALL_DYNAMIC_UI_CAPABILITIES@);
        }
        r
    }

    /// Whether the set holds `capability`.
    pub fn supports(self, capability: DynamicUiProducerCapability) -> (r: bool)
        ensures
            r == self.capabilities@.contains(capability),
    {
        let mut i: usize = 0;
        while i < self.capabilities.len()
            invariant
                i <= self.capabilities@.len(),
                forall|j: int| 0 <= j < i ==> self.capabilities@[j] != capability,
            decreases self.capabilities@.len() - i,
        {
            if self.capabilities[i] == capability {
                return true;
            }
            i = i + 1;
        }
        false
    }
}

#[derive(Clone, Copy, Debug, PartialEq, Eq, Structural)]
pub struct DynamicUiCapabilityDecision {
    pub capability: DynamicUiProducerCapability,
    pub supported: bool,
}

/// The input capability that a source kind needs.
pub open spec fn input_capability(kind: DynamicUiSourceKind) -> DynamicUiProducerCapability {
    match kind {
        DynamicUiSourceKind::JsonDebug(_) => DynamicUiProducerCapability::JsonDebugInput,
        DynamicUiSourceKind::BinaryBytes(_) => DynamicUiProducerCapability::BinaryBytesInput,
        DynamicUiSourceKind::GeneratedFixture(_) => DynamicUiProducerCapability::GeneratedFixtureInput,
        DynamicUiSourceKind::InMemory(_) => DynamicUiProducerCapability::InMemoryInput,
    }
}

/// The capabilities a source needs: its input capability, then the base ones.
pub open spec fn required_capability_list(source: DynamicUiSourceMetadata) -> Seq<
    DynamicUiProducerCapability,
> {
    seq![input_capability(source.kind)] + BASE_DYNAMIC_UI_CAPABILITIES@
}

/// The decision for each required capability, in order.
pub open spec fn negotiation_list(
    capabilities: DynamicUiProducerCapabilitySet,
    source: DynamicUiSourceMetadata,
) -> Seq<DynamicUiCapabilityDecision> {
    required_capability_list(source).map_values(
        |c: DynamicUiProducerCapability|
            DynamicUiCapabilityDecision { capability: c, supported: capabilities.capabilities@.contains(c) },
    )
}

/// The capabilities a source needs: the input capability of its kind, then
/// runtime validation, the runtime bridge and the mock backend sink.
pub fn required_capabilities(source: DynamicUiSourceMetadata) -> (r: Vec<DynamicUiProducerCapability>)
    ensures
        r@ == required_capability_list(source),
{
    let mut required: Vec<DynamicUiProducerCapability> = Vec::new();
    required.push(
        match source.kind {
            DynamicUiSourceKind::JsonDebug(_) => DynamicUiProducerCapability::JsonDebugInput,
            DynamicUiSourceKind::BinaryBytes(_) => DynamicUiProducerCapability::BinaryBytesInput,
            DynamicUiSourceKind::GeneratedFixture(_) => DynamicUiProducerCapability::GeneratedFixtureInput,
            DynamicUiSourceKind::InMemory(_) => DynamicUiProducerCapability::InMemoryInput,
        },
    );
    let mut i: usize = 0;
    while i < BASE_DYNAMIC_UI_CAPABILITIES.len()
        invariant
            i <= 3,
            required@ == seq![input_capability(source.kind)] + BASE_DYNAMIC_UI_CAPABILITIES@.take(i as int),
        decreases 3 - i,
    {
        required.push(BASE_DYNAMIC_UI_CAPABILITIES[i]);
        proof {
            assert(BASE_DYNAMIC_UI_CAPABILITIES@.take(i + 1) =~= BASE_DYNAMIC_UI_CAPABILITIES@.take(i as int).push(BASE_DYNAMIC_UI_CAPABILITIES@[i as int]));
        }
        i = i + 1;
    }
    assert(BASE_DYNAMIC_UI_CAPABILITIES@.take(3) =~= BASE_DYNAMIC_UI_CAPABILITIES@);
    required
}

/// Whether the producer's capabilities hold each capability the source needs.
pub fn negotiate_capabilities(
    capabilities: DynamicUiProducerCapabilitySet,
    source: DynamicUiSourceMetadata,
) -> (r: Vec<DynamicUiCapabilityDecision>)
    ensures
        r@ == negotiation_list(capabilities, source),
{
    let required = required_capabilities(source);
    let mut decisions: Vec<DynamicUiCapabilityDecision> = Vec::new();
    let mut i: usize = 0;
    while i < required.len()
        invariant
            i <= required@.len(),
            required@ == required_capability_list(source),
            decisions@ == negotiation_list(capabilities, source).take(i as int),
        decreases required@.len() - i,
    {
        let capability = required[i];
        decisions.push(
            DynamicUiCapabilityDecision { capability, supported: capabilities.supports(capability) },
        );
        proof {
            assert(decisions@ =~= negotiation_list(capabilities, source).take(i + 1));
        }
        i = i + 1;
    }
    assert(negotiation_list(capabilities, source).take(required@.len() as int) =~= negotiation_list(capabilities, source));
    decisions
}

} // verus!
