use vstd::prelude::*;

use crate::backend::operations::BackendOperationFamily;

verus! {

#[derive(Clone, Copy, Debug, PartialEq, Eq, Structural)]
pub enum BackendTarget {
    RustHost,
    Ios,
    Android,
    WebDom,
    Png,
    RetainedBackend,
}

/// The name of a backend target.
pub open spec fn target_text(target: BackendTarget) -> Seq<char> {
    match target {
        BackendTarget::RustHost => "rust_host"@,
        BackendTarget::Ios => "ios"@,
        BackendTarget::Android => "android"@,
        BackendTarget::WebDom => "web_dom"@,
        BackendTarget::Png => "png"@,
        BackendTarget::RetainedBackend => "retained_backend"@,
    }
}

impl BackendTarget {
    pub fn as_str(self) -> (r: &'static str)
        ensures
            r@ == target_text(self),
    {
        match self {
            BackendTarget::RustHost => "rust_host",
            BackendTarget::Ios => "ios",
            BackendTarget::Android => "android",
            BackendTarget::WebDom => "web_dom",
            BackendTarget::Png => "png",
            BackendTarget::RetainedBackend => "retained_backend",
        }
    }
}

#[derive(Clone, Copy, Debug, PartialEq, Eq, Structural)]
pub enum BackendCapability {
    ViewTree,
    AttributesAndStyle,
    Animations,
    LayoutCallbacks,
    DrawCallbacks,
    VisibilityObservers,
    FrameObservers,
    AssetLoading,
    TextMeasurement,
    NativeViewMount,
    WebViewMount,
    TransactionGroups,
}

/// The name of a backend capability.
pub open spec fn capability_text(capability: BackendCapability) -> Seq<char> {
    match capability {
        BackendCapability::ViewTree => "view_tree"@,
        BackendCapability::AttributesAndStyle => "attributes_and_style"@,
        BackendCapability::Animations => "animations"@,
        BackendCapability::LayoutCallbacks => "layout_callbacks"@,
        BackendCapability::DrawCallbacks => "draw_callbacks"@,
        BackendCapability::VisibilityObservers => "visibility_observers"@,
        BackendCapability::FrameObservers => "frame_observers"@,
        BackendCapability::AssetLoading => "asset_loading"@,
        BackendCapability::TextMeasurement => "text_measurement"@,
        BackendCapability::NativeViewMount => "native_view_mount"@,
        BackendCapability::WebViewMount => "webview_mount"@,
        BackendCapability::TransactionGroups => "transaction_groups"@,
    }
}

impl BackendCapability {
    pub fn as_str(self) -> (r: &'static str)
        ensures
            r@ == capability_text(self),
    {
        match self {
            BackendCapability::ViewTree => "view_tree",
            BackendCapability::AttributesAndStyle => "attributes_and_style",
            BackendCapability::Animations => "animations",
            BackendCapability::LayoutCallbacks => "layout_callbacks",
            BackendCapability::DrawCallbacks => "draw_callbacks",
            BackendCapability::VisibilityObservers => "visibility_observers",
            BackendCapability::FrameObservers => "frame_observers",
            BackendCapability::AssetLoading => "asset_loading",
            BackendCapability::TextMeasurement => "text_measurement",
            BackendCapability::NativeViewMount => "native_view_mount",
            BackendCapability::WebViewMount => "webview_mount",
            BackendCapability::TransactionGroups => "transaction_groups",
        }
    }
}

#[derive(Clone, Copy, Debug, PartialEq, Eq, Structural)]
pub enum BackendCapabilityDecision {
    Supported(BackendCapability),
    Unsupported(BackendCapability),
}

#[derive(Clone, Copy, Debug, PartialEq, Eq)]
pub struct BackendCapabilitySet {
    pub target: BackendTarget,
    pub capabilities: &'static [BackendCapability],
}

/// Every backend capability, in declaration order.
pub const ALL_CAPABILITIES: [BackendCapability; 12] = [
    BackendCapability::ViewTree,
    BackendCapability::AttributesAndStyle,
    BackendCapability::Animations,
    BackendCapability::LayoutCallbacks,
    BackendCapability::DrawCallbacks,
    BackendCapability::VisibilityObservers,
    BackendCapability::FrameObservers,
    BackendCapability::AssetLoading,
    BackendCapability::TextMeasurement,
    BackendCapability::NativeViewMount,
    BackendCapability::WebViewMount,
    BackendCapability::TransactionGroups,
];

impl BackendCapabilitySet {
    pub fn new(target: BackendTarget, capabilities: &'static [BackendCapability]) -> (r: Self)
        ensures
            r.target == target,
            r.capabilities@ == capabilities@,
    {
        BackendCapabilitySet { target, capabilities }
    }

    /// Whether the set holds `capability`.
    pub fn supports(self, capability: BackendCapability) -> (r: bool)
        ensures
            r == self.capabilities@.contains(capability),
    {
        let mut i: usize = 0;
        while i < self.capabilities.len()
            invariant
                i <= self.capabilities@.len(),
                forall|j: int| 0 <= j < i ==> self.capabilities@[j] != capability,
            decreases self.capabilities@.len() - i,
        {
            if self.capabilities[i] == capability {
                return true;
            }
            i = i + 1;
        }
        false
    }

    /// The set of every capability for a target.
    pub fn all_for(target: BackendTarget) -> (r: Self)
        ensures
            r.target == target,
            r.capabilities@ == ALL_CAPABILITIES@,
            forall|c: BackendCapability| r.capabilities@.contains(c),
    {
        let r = BackendCapabilitySet { target, capabilities: &ALL_CAPABILITIES };
        assert forall|c: BackendCapability| r.capabilities@.contains(c) by {
            assert(r.capabilities@ == ALL_CAPABILITIES@);
        }
        r
    }
}

#[derive(Clone, Copy, Debug, PartialEq, Eq)]
pub struct FixtureTagBackendDecision {
    pub fixture_tag: &'static str,
    pub target: BackendTarget,
    pub capability: BackendCapability,
    pub operation_families: &'static [BackendOperationFamily],
}

/// A fixture tag decision as plain values.
pub struct FixtureTagBackendDecisionView {
    pub fixture_tag: Seq<char>,
    pub target: BackendTarget,
    pub capability: BackendCapability,
    pub operation_families: Seq<BackendOperationFamily>,
}

impl View for FixtureTagBackendDecision {
    type V = FixtureTagBackendDecisionView;

    open spec fn view(&self) -> FixtureTagBackendDecisionView {
        FixtureTagBackendDecisionView {
            fixture_tag: self.fixture_tag@,
            target: self.target,
            capability: self.capability,
            operation_families: self.operation_families@,
        }
    }
}

/// The backend decision for each fixture tag of the corpus, by tag.
pub open spec fn fixture_tag_decision_table() -> Seq<FixtureTagBackendDecisionView> {
    seq![
        FixtureTagBackendDecisionView {
            fixture_tag: "android"@,
            target: BackendTarget::Android,
            capability: BackendCapability::NativeViewMount,
            operation_families: seq![BackendOperationFamily::NativeViewMount],
        },
        FixtureTagBackendDecisionView {
            fixture_tag: "dom_snapshot"@,
            target: BackendTarget::WebDom,
            capability: BackendCapability::WebViewMount,
            operation_families: seq![BackendOperationFamily::WebViewMount],
        },
        FixtureTagBackendDecisionView {
            fixture_tag: "dynamic_ui"@,
            target: BackendTarget::RustHost,
            capability: BackendCapability::ViewTree,
            operation_families: seq![BackendOperationFamily::Create, BackendOperationFamily::Root, BackendOperationFamily::TransactionGroup],
        },
        FixtureTagBackendDecisionView {
            fixture_tag: "hot_reload"@,
            target: BackendTarget::RustHost,
            capability: BackendCapability::AttributesAndStyle,
            operation_families: seq![BackendOperationFamily::Move, BackendOperationFamily::AttributeStyle, BackendOperationFamily::TransactionGroup],
        },
        FixtureTagBackendDecisionView {
            fixture_tag: "ios"@,
            target: BackendTarget::Ios,
            capability: BackendCapability::NativeViewMount,
            operation_families: seq![BackendOperationFamily::NativeViewMount],
        },
        FixtureTagBackendDecisionView {
            fixture_tag: "module"@,
            target: BackendTarget::RustHost,
            capability: BackendCapability::TransactionGroups,
            operation_families: seq![BackendOperationFamily::TransactionGroup],
        },
        FixtureTagBackendDecisionView {
            fixture_tag: "native_view"@,
            target: BackendTarget::RustHost,
            capability: BackendCapability::NativeViewMount,
            operation_families: seq![BackendOperationFamily::NativeViewMount],
        },
        FixtureTagBackendDecisionView {
            fixture_tag: "retained_backend"@,
            target: BackendTarget::RetainedBackend,
            capability: BackendCapability::ViewTree,
            operation_families: seq![BackendOperationFamily::Create, BackendOperationFamily::Move, BackendOperationFamily::Destroy],
        },
        FixtureTagBackendDecisionView {
            fixture_tag: "rust_backend"@,
            target: BackendTarget::RustHost,
            capability: BackendCapability::ViewTree,
            operation_families: seq![BackendOperationFamily::Create, BackendOperationFamily::Root, BackendOperationFamily::Move],
        },
        FixtureTagBackendDecisionView {
            fixture_tag: "screenshot"@,
            target: BackendTarget::Png,
            capability: BackendCapability::DrawCallbacks,
            operation_families: seq![BackendOperationFamily::DrawCallback],
        },
        FixtureTagBackendDecisionView {
            fixture_tag: "static_png"@,
            target: BackendTarget::Png,
            capability: BackendCapability::AssetLoading,
            operation_families: seq![BackendOperationFamily::AssetLoad, BackendOperationFamily::DrawCallback],
        },
        FixtureTagBackendDecisionView {
            fixture_tag: "tsx_compat"@,
            target: BackendTarget::RetainedBackend,
            capability: BackendCapability::AttributesAndStyle,
            operation_families: seq![BackendOperationFamily::Create, BackendOperationFamily::Move, BackendOperationFamily::AttributeStyle],
        },
        FixtureTagBackendDecisionView {
            fixture_tag: "web"@,
            target: BackendTarget::WebDom,
            capability: BackendCapability::WebViewMount,
            operation_families: seq![BackendOperationFamily::WebViewMount],
        }
    ]
}

/// The backend decision for each fixture tag of the corpus: the target and
/// capability the tag exercises and the operation families it needs.
pub fn fixture_tag_backend_decisions() -> (r: Vec<FixtureTagBackendDecision>)
    ensures
        r@.map_values(|d: FixtureTagBackendDecision| d@) == fixture_tag_decision_table(),
{
    let mut decisions: Vec<FixtureTagBackendDecision> = Vec::new();
    decisions.push(
        FixtureTagBackendDecision {
            fixture_tag: "android",
            target: BackendTarget::Android,
            capability: BackendCapability::NativeViewMount,
            operation_families: &[BackendOperationFamily::NativeViewMount],
        },
    );
    decisions.push(
        FixtureTagBackendDecision {
            fixture_tag: "dom_snapshot",
            target: BackendTarget::WebDom,
            capability: BackendCapability::WebViewMount,
            operation_families: &[BackendOperationFamily::WebViewMount],
        },
    );
    decisions.push(
        FixtureTagBackendDecision {
            fixture_tag: "dynamic_ui",
            target: BackendTarget::RustHost,
            capability: BackendCapability::ViewTree,
            operation_families: &[BackendOperationFamily::Create, BackendOperationFamily::Root, BackendOperationFamily::TransactionGroup],
        },
    );
    decisions.push(
        FixtureTagBackendDecision {
            fixture_tag: "hot_reload",
            target: BackendTarget::RustHost,
            capability: BackendCapability::AttributesAndStyle,
            operation_families: &[BackendOperationFamily::Move, BackendOperationFamily::AttributeStyle, BackendOperationFamily::TransactionGroup],
        },
    );
    decisions.push(
        FixtureTagBackendDecision {
            fixture_tag: "ios",
            target: BackendTarget::Ios,
            capability: BackendCapability::NativeViewMount,
            operation_families: &[BackendOperationFamily::NativeViewMount],
        },
    );
    decisions.push(
        FixtureTagBackendDecision {
            fixture_tag: "module",
            target: BackendTarget::RustHost,
            capability: BackendCapability::TransactionGroups,
            operation_families: &[BackendOperationFamily::TransactionGroup],
        },
    );
    decisions.push(
        FixtureTagBackendDecision {
            fixture_tag: "native_view",
            target: BackendTarget::RustHost,
            capability: BackendCapability::NativeViewMount,
            operation_families: &[BackendOperationFamily::NativeViewMount],
        },
    );
    decisions.push(
        FixtureTagBackendDecision {
            fixture_tag: "retained_backend",
            target: BackendTarget::RetainedBackend,
            capability: BackendCapability::ViewTree,
            operation_families: &[BackendOperationFamily::Create, BackendOperationFamily::Move, BackendOperationFamily::Destroy],
        },
    );
    decisions.push(
        FixtureTagBackendDecision {
            fixture_tag: "rust_backend",
            target: BackendTarget::RustHost,
            capability: BackendCapability::ViewTree,
            operation_families: &[BackendOperationFamily::Create, BackendOperationFamily::Root, BackendOperationFamily::Move],
        },
    );
    decisions.push(
        FixtureTagBackendDecision {
            fixture_tag: "screenshot",
            target: BackendTarget::Png,
            capability: BackendCapability::DrawCallbacks,
            operation_families: &[BackendOperationFamily::DrawCallback],
        },
    );
    decisions.push(
        FixtureTagBackendDecision {
            fixture_tag: "static_png",
            target: BackendTarget::Png,
            capability: BackendCapability::AssetLoading,
            operation_families: &[BackendOperationFamily::AssetLoad, BackendOperationFamily::DrawCallback],
        },
    );
    decisions.push(
        FixtureTagBackendDecision {
            fixture_tag: "tsx_compat",
            target: BackendTarget::RetainedBackend,
            capability: BackendCapability::AttributesAndStyle,
            operation_families: &[BackendOperationFamily::Create, BackendOperationFamily::Move, BackendOperationFamily::AttributeStyle],
        },
    );
    decisions.push(
        FixtureTagBackendDecision {
            fixture_tag: "web",
            target: BackendTarget::WebDom,
            capability: BackendCapability::WebViewMount,
            operation_families: &[BackendOperationFamily::WebViewMount],
        },
    );
    proof {
        assert(decisions@[0]@.fixture_tag == fixture_tag_decision_table()[0].fixture_tag);
        assert(decisions@[0]@.target == fixture_tag_decision_table()[0].target);
        assert(decisions@[0]@.capability == fixture_tag_decision_table()[0].capability);
        assert(decisions@[0]@.operation_families == fixture_tag_decision_table()[0].operation_families);
        assert(decisions@[1]@.fixture_tag == fixture_tag_decision_table()[1].fixture_tag);
        assert(decisions@[1]@.target == fixture_tag_decision_table()[1].target);
        assert(decisions@[1]@.capability == fixture_tag_decision_table()[1].capability);
        assert(decisions@[1]@.operation_families == fixture_tag_decision_table()[1].operation_families);
        assert(decisions@[2]@.fixture_tag == fixture_tag_decision_table()[2].fixture_tag);
        assert(decisions@[2]@.target == fixture_tag_decision_table()[2].target);
        assert(decisions@[2]@.capability == fixture_tag_decision_table()[2].capability);
        assert(decisions@[2]@.operation_families == fixture_tag_decision_table()[2].operation_families);
        assert(decisions@[3]@.fixture_tag == fixture_tag_decision_table()[3].fixture_tag);
        assert(decisions@[3]@.target == fixture_tag_decision_table()[3].target);
        assert(decisions@[3]@.capability == fixture_tag_decision_table()[3].capability);
        assert(decisions@[3]@.operation_families == fixture_tag_decision_table()[3].operation_families);
        assert(decisions@[4]@.fixture_tag == fixture_tag_decision_table()[4].fixture_tag);
        assert(decisions@[4]@.target == fixture_tag_decision_table()[4].target);
        assert(decisions@[4]@.capability == fixture_tag_decision_table()[4].capability);
        assert(decisions@[4]@.operation_families == fixture_tag_decision_table()[4].operation_families);
        assert(decisions@[5]@.fixture_tag == fixture_tag_decision_table()[5].fixture_tag);
        assert(decisions@[5]@.target == fixture_tag_decision_table()[5].target);
        assert(decisions@[5]@.capability == fixture_tag_decision_table()[5].capability);
        assert(decisions@[5]@.operation_families == fixture_tag_decision_table()[5].operation_families);
        assert(decisions@[6]@.fixture_tag == fixture_tag_decision_table()[6].fixture_tag);
        assert(decisions@[6]@.target == fixture_tag_decision_table()[6].target);
        assert(decisions@[6]@.capability == fixture_tag_decision_table()[6].capability);
        assert(decisions@[6]@.operation_families == fixture_tag_decision_table()[6].operation_families);
        assert(decisions@[7]@.fixture_tag == fixture_tag_decision_table()[7].fixture_tag);
        assert(decisions@[7]@.target == fixture_tag_decision_table()[7].target);
        assert(decisions@[7]@.capability == fixture_tag_decision_table()[7].capability);
        assert(decisions@[7]@.operation_families == fixture_tag_decision_table()[7].operation_families);
        assert(decisions@[8]@.fixture_tag == fixture_tag_decision_table()[8].fixture_tag);
        assert(decisions@[8]@.target == fixture_tag_decision_table()[8].target);
        assert(decisions@[8]@.capability == fixture_tag_decision_table()[8].capability);
        assert(decisions@[8]@.operation_families == fixture_tag_decision_table()[8].operation_families);
        assert(decisions@[9]@.fixture_tag == fixture_tag_decision_table()[9].fixture_tag);
        assert(decisions@[9]@.target == fixture_tag_decision_table()[9].target);
        assert(decisions@[9]@.capability == fixture_tag_decision_table()[9].capability);
        assert(decisions@[9]@.operation_families == fixture_tag_decision_table()[9].operation_families);
        assert(decisions@[10]@.fixture_tag == fixture_tag_decision_table()[10].fixture_tag);
        assert(decisions@[10]@.target == fixture_tag_decision_table()[10].target);
        assert(decisions@[10]@.capability == fixture_tag_decision_table()[10].capability);
        assert(decisions@[10]@.operation_families == fixture_tag_decision_table()[10].operation_families);
        assert(decisions@[11]@.fixture_tag == fixture_tag_decision_table()[11].fixture_tag);
        assert(decisions@[11]@.target == fixture_tag_decision_table()[11].target);
        assert(decisions@[11]@.capability == fixture_tag_decision_table()[11].capability);
        assert(decisions@[11]@.operation_families == fixture_tag_decision_table()[11].operation_families);
        assert(decisions@[12]@.fixture_tag == fixture_tag_decision_table()[12].fixture_tag);
        assert(decisions@[12]@.target == fixture_tag_decision_table()[12].target);
        assert(decisions@[12]@.capability == fixture_tag_decision_table()[12].capability);
        assert(decisions@[12]@.operation_families == fixture_tag_decision_table()[12].operation_families);
    }
    assert(decisions@.map_values(|d: FixtureTagBackendDecision| d@) =~= fixture_tag_decision_table());
    decisions
}

} // verus!
