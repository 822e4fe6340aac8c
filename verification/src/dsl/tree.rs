//! Nodes and documents that the DSL produces.

use vstd::prelude::*;

use crate::dsl::attributes::DslAttribute;
use crate::dsl::elements::ElementKind;
use crate::dsl::events::{CustomNativeEventSpec, EventBinding, EventKind};
use crate::dsl::ids::{ActionId, ComponentId, KeyId, NodeId, SourceSpanId, StateId};
use crate::dynamic_ui::source::{
    BinaryBytesLabel, DebugJsonLabel, DynamicUiSourceKind, GeneratedFixtureRef, InMemoryProducerTag,
};
use crate::text::{copy_opt_text, copy_texts, join, joined, opt_text, owned, texts};

verus! {

/// A UI node: its ID, its element kind and the state it is scoped to.
#[derive(Clone, Copy, Debug, PartialEq, Eq)]
pub struct UiNode {
    pub node_id: NodeId,
    pub kind: ElementKind,
    pub state_id: Option<StateId>,
}

/// A node built with the DSL, with the attributes and events it carries.
#[derive(Clone, Debug, PartialEq)]
pub struct DslNode {
    pub node: UiNode,
    pub source_span_id: SourceSpanId,
    pub attributes: Vec<DslAttribute>,
    pub events: Vec<EventBinding>,
}

/// The value that an input event carries.
#[derive(Clone, Copy, Debug, PartialEq, Eq)]
pub struct InputEventPayload {
    pub value: &'static str,
}

/// The value that a keyboard submit carries.
#[derive(Clone, Copy, Debug, PartialEq, Eq)]
pub struct KeyboardSubmitPayload {
    pub value: &'static str,
}

/// The frame that a draw event is for.
#[derive(Clone, Copy, Debug, PartialEq, Eq)]
pub struct DrawEventPayload {
    pub frame_number: u64,
}

/// Whether a node became visible.
#[derive(Clone, Copy, Debug, PartialEq, Eq)]
pub struct VisibilityEventPayload {
    pub visible: bool,
}

/// The frame that a frame observer saw.
#[derive(Clone, Copy, Debug, PartialEq, Eq)]
pub struct FrameObserverPayload {
    pub frame_number: u64,
}

/// What the events and gestures surface declares: a binding of every event
/// kind, and the payloads of input, keyboard, draw, visibility and frame
/// events.
#[derive(Clone, Copy, Debug, PartialEq, Eq)]
pub struct EventsGesturesSurface {
    pub bindings: [EventBinding; 14],
    pub input: InputEventPayload,
    pub keyboard: KeyboardSubmitPayload,
    pub draw: DrawEventPayload,
    pub visibility: VisibilityEventPayload,
    pub frame: FrameObserverPayload,
}

/// The root of a document.
#[derive(Clone, Copy, Debug, PartialEq, Eq)]
pub struct RootNode {
    pub node_id: NodeId,
}

/// A document: its root and the component it renders.
#[derive(Clone, Copy, Debug, PartialEq, Eq)]
pub struct UiDocument {
    pub root: RootNode,
    pub component_id: ComponentId,
}

/// A child's place among its siblings.
#[derive(Clone, Copy, Debug, PartialEq, Eq)]
pub struct ChildOrder(pub u32);

/// A parent and child edge of the tree.
#[derive(Clone, Copy, Debug, PartialEq, Eq)]
pub struct TreeChild {
    pub parent_id: NodeId,
    pub child_id: NodeId,
    pub order: ChildOrder,
    pub key: Option<KeyId>,
}

/// A fragment node.
#[derive(Clone, Copy, Debug, PartialEq, Eq)]
pub struct FragmentNode {
    pub node_id: NodeId,
}

/// A named slot.
#[derive(Clone, Copy, Debug, PartialEq, Eq)]
pub struct SlotNode {
    pub node_id: NodeId,
    pub slot_name: &'static str,
}

/// A portal to a target.
#[derive(Clone, Copy, Debug, PartialEq, Eq)]
pub struct PortalNode {
    pub node_id: NodeId,
    pub target: &'static str,
}

/// A node that scopes a piece of state.
#[derive(Clone, Copy, Debug, PartialEq, Eq)]
pub struct ContextScope {
    pub node_id: NodeId,
    pub state_id: StateId,
}

/// What happens to a destroyed node.
#[derive(Clone, Copy, Debug, PartialEq, Eq)]
pub enum DestructionPolicy {
    PreserveForPool,
}

/// Which nodes a pool may reuse.
#[derive(Clone, Copy, Debug, PartialEq, Eq)]
pub enum PoolingPolicy {
    ReusableByKind(ElementKind),
}

/// What the tree structure surface declares: a document, its nodes and
/// edges, a fragment, a slot, a portal, a context scope, and the destruction
/// and pooling policies.
#[derive(Clone, Copy, Debug, PartialEq, Eq)]
pub struct TreeStructureSurface {
    pub document: UiDocument,
    pub nodes: [UiNode; 2],
    pub children: [TreeChild; 1],
    pub fragment: FragmentNode,
    pub slot: SlotNode,
    pub portal: PortalNode,
    pub context: ContextScope,
    pub destruction_policy: DestructionPolicy,
    pub pooling_policy: PoolingPolicy,
}

/// The producer that a dynamic UI payload names, and whether its output is
/// validated IR.
#[derive(Clone, Copy, Debug, PartialEq, Eq)]
pub struct DynamicUiProducer {
    pub name: &'static str,
    pub validated: bool,
}

/// What the dynamic UI surface declares: its producer, the producer's input,
/// the generated fixture, and the labels of its JSON debug and binary forms.
#[derive(Clone, Copy, Debug, PartialEq, Eq)]
pub struct DynamicUiSurface {
    pub producer: DynamicUiProducer,
    pub input: DynamicUiSourceKind,
    pub generated_fixture: GeneratedFixtureRef,
    pub debug_json: DebugJsonLabel,
    pub binary_bytes: BinaryBytesLabel,
}

/// Whether a TSX feature is covered.
#[derive(Clone, Copy, Debug, PartialEq, Eq)]
pub struct TsxCoverageMap {
    pub feature: &'static str,
    pub covered: bool,
}

/// The fixture that shows TSX and the IR to be equivalent.
#[derive(Clone, Copy, Debug, PartialEq, Eq)]
pub struct TsxToIrEquivalence {
    pub fixture_name: &'static str,
}

/// Whether the Rust path leaves the TypeScript runtime out.
#[derive(Clone, Copy, Debug, PartialEq, Eq)]
pub struct RustPathDependencyCheck {
    pub excludes_typescript_runtime: bool,
}

/// What the TypeScript compatibility surface declares: its coverage, whether
/// the direct renderer yields equivalent IR, the equivalence fixture and the
/// dependency exclusion.
#[derive(Clone, Copy, Debug, PartialEq, Eq)]
pub struct TsCompatibilitySurface {
    pub coverage: TsxCoverageMap,
    pub equivalent_ir: bool,
    pub equivalence: TsxToIrEquivalence,
    pub dependency_check: RustPathDependencyCheck,
}

/// The contract surface that a DSL document's payload covers, with what the
/// dynamic UI and TypeScript compatibility surfaces declare.
#[derive(Clone, Copy, Debug, PartialEq, Eq)]
pub enum DslSurfacePayload {
    SchemaVersioning,
    ComponentIdentity,
    TreeStructure(TreeStructureSurface),
    ElementTaxonomy,
    Layout,
    Styling,
    Text,
    Assets,
    EventsGestures(EventsGesturesSurface),
    ActionsState,
    BindingsExpressions,
    Animations,
    NativeModules,
    NativeViews,
    Accessibility,
    HotReload,
    Diagnostics,
    WebDom,
    PngBackend,
    DynamicUi(DynamicUiSurface),
    TsCompatibility(TsCompatibilitySurface),
    BuildGraph,
}

/// The contract row that a payload's surface belongs to.
pub open spec fn surface_text(payload: DslSurfacePayload) -> Seq<char> {
    match payload {
        DslSurfacePayload::SchemaVersioning => "schema_versioning"@,
        DslSurfacePayload::ComponentIdentity => "component_identity"@,
        DslSurfacePayload::TreeStructure(_) => "tree_structure"@,
        DslSurfacePayload::ElementTaxonomy => "element_taxonomy"@,
        DslSurfacePayload::Layout => "layout"@,
        DslSurfacePayload::Styling => "styling"@,
        DslSurfacePayload::Text => "text"@,
        DslSurfacePayload::Assets => "assets"@,
        DslSurfacePayload::EventsGestures(_) => "events_gestures"@,
        DslSurfacePayload::ActionsState => "actions_state"@,
        DslSurfacePayload::BindingsExpressions => "bindings_expressions"@,
        DslSurfacePayload::Animations => "animations"@,
        DslSurfacePayload::NativeModules => "native_modules"@,
        DslSurfacePayload::NativeViews => "native_views"@,
        DslSurfacePayload::Accessibility => "accessibility"@,
        DslSurfacePayload::HotReload => "hot_reload"@,
        DslSurfacePayload::Diagnostics => "diagnostics"@,
        DslSurfacePayload::WebDom => "web_dom"@,
        DslSurfacePayload::PngBackend => "png_backend"@,
        DslSurfacePayload::DynamicUi(_) => "dynamic_ui"@,
        DslSurfacePayload::TsCompatibility(_) => "ts_compatibility"@,
        DslSurfacePayload::BuildGraph => "build_graph"@,
    }
}

impl DslSurfacePayload {
    pub fn kind_token(&self) -> (r: &'static str)
        ensures
            r@ == surface_text(*self),
    {
        match self {
            DslSurfacePayload::SchemaVersioning => "schema_versioning",
            DslSurfacePayload::ComponentIdentity => "component_identity",
            DslSurfacePayload::TreeStructure(_) => "tree_structure",
            DslSurfacePayload::ElementTaxonomy => "element_taxonomy",
            DslSurfacePayload::Layout => "layout",
            DslSurfacePayload::Styling => "styling",
            DslSurfacePayload::Text => "text",
            DslSurfacePayload::Assets => "assets",
            DslSurfacePayload::EventsGestures(_) => "events_gestures",
            DslSurfacePayload::ActionsState => "actions_state",
            DslSurfacePayload::BindingsExpressions => "bindings_expressions",
            DslSurfacePayload::Animations => "animations",
            DslSurfacePayload::NativeModules => "native_modules",
            DslSurfacePayload::NativeViews => "native_views",
            DslSurfacePayload::Accessibility => "accessibility",
            DslSurfacePayload::HotReload => "hot_reload",
            DslSurfacePayload::Diagnostics => "diagnostics",
            DslSurfacePayload::WebDom => "web_dom",
            DslSurfacePayload::PngBackend => "png_backend",
            DslSurfacePayload::DynamicUi(_) => "dynamic_ui",
            DslSurfacePayload::TsCompatibility(_) => "ts_compatibility",
            DslSurfacePayload::BuildGraph => "build_graph",
        }
    }
}

/// The document the DSL produces for one contract row.
#[derive(Clone, Debug, PartialEq)]
pub struct DslDocument {
    pub fixture_id: String,
    pub contract_row_id: String,
    pub surface: String,
    pub fixture_tags: Vec<String>,
    pub platform_targets: Vec<String>,
    pub owner_prs: Vec<String>,
    pub proof_prs: Vec<String>,
    pub serialized_artifact_path: String,
    pub root_node_id: String,
    pub component_id: String,
    pub coverage_tokens: Vec<String>,
    pub source_span: Option<String>,
    pub payload: DslSurfacePayload,
}

/// A DSL document as plain texts.
pub struct DslDocumentView {
    pub fixture_id: Seq<char>,
    pub contract_row_id: Seq<char>,
    pub surface: Seq<char>,
    pub fixture_tags: Seq<Seq<char>>,
    pub platform_targets: Seq<Seq<char>>,
    pub owner_prs: Seq<Seq<char>>,
    pub proof_prs: Seq<Seq<char>>,
    pub serialized_artifact_path: Seq<char>,
    pub root_node_id: Seq<char>,
    pub component_id: Seq<char>,
    pub coverage_tokens: Seq<Seq<char>>,
    pub source_span: Option<Seq<char>>,
    pub payload: DslSurfacePayload,
}

impl View for DslDocument {
    type V = DslDocumentView;

    open spec fn view(&self) -> DslDocumentView {
        DslDocumentView {
            fixture_id: self.fixture_id@,
            contract_row_id: self.contract_row_id@,
            surface: self.surface@,
            fixture_tags: texts(self.fixture_tags@),
            platform_targets: texts(self.platform_targets@),
            owner_prs: texts(self.owner_prs@),
            proof_prs: texts(self.proof_prs@),
            serialized_artifact_path: self.serialized_artifact_path@,
            root_node_id: self.root_node_id@,
            component_id: self.component_id@,
            coverage_tokens: texts(self.coverage_tokens@),
            source_span: opt_text(self.source_span),
            payload: self.payload,
        }
    }
}

/// What the DSL's events and gestures payload declares.
pub open spec fn events_surface() -> EventsGesturesSurface {
    EventsGesturesSurface {
        bindings: [
            EventBinding {
                node_id: NodeId { id: "node.events_gestures.root" },
                kind: EventKind::Tap,
                action_id: ActionId { id: "action.events_gestures.tap" },
            },
            EventBinding {
                node_id: NodeId { id: "node.events_gestures.root" },
                kind: EventKind::Press,
                action_id: ActionId { id: "action.events_gestures.tap" },
            },
            EventBinding {
                node_id: NodeId { id: "node.events_gestures.root" },
                kind: EventKind::LongPress,
                action_id: ActionId { id: "action.events_gestures.tap" },
            },
            EventBinding {
                node_id: NodeId { id: "node.events_gestures.root" },
                kind: EventKind::Pan,
                action_id: ActionId { id: "action.events_gestures.tap" },
            },
            EventBinding {
                node_id: NodeId { id: "node.events_gestures.scroll" },
                kind: EventKind::Scroll,
                action_id: ActionId { id: "action.events_gestures.tap" },
            },
            EventBinding {
                node_id: NodeId { id: "node.events_gestures.input" },
                kind: EventKind::Focus,
                action_id: ActionId { id: "action.events_gestures.tap" },
            },
            EventBinding {
                node_id: NodeId { id: "node.events_gestures.input" },
                kind: EventKind::Blur,
                action_id: ActionId { id: "action.events_gestures.tap" },
            },
            EventBinding {
                node_id: NodeId { id: "node.events_gestures.input" },
                kind: EventKind::Input,
                action_id: ActionId { id: "action.events_gestures.tap" },
            },
            EventBinding {
                node_id: NodeId { id: "node.events_gestures.input" },
                kind: EventKind::KeyboardSubmit,
                action_id: ActionId { id: "action.events_gestures.tap" },
            },
            EventBinding {
                node_id: NodeId { id: "node.events_gestures.root" },
                kind: EventKind::Layout,
                action_id: ActionId { id: "action.events_gestures.tap" },
            },
            EventBinding {
                node_id: NodeId { id: "node.events_gestures.draw" },
                kind: EventKind::Draw,
                action_id: ActionId { id: "action.events_gestures.tap" },
            },
            EventBinding {
                node_id: NodeId { id: "node.events_gestures.root" },
                kind: EventKind::Visibility,
                action_id: ActionId { id: "action.events_gestures.tap" },
            },
            EventBinding {
                node_id: NodeId { id: "node.events_gestures.root" },
                kind: EventKind::FrameObserver,
                action_id: ActionId { id: "action.events_gestures.tap" },
            },
            EventBinding {
                node_id: NodeId { id: "node.events_gestures.native" },
                kind: EventKind::CustomNative(CustomNativeEventSpec { event_name: "camera.ready" }),
                action_id: ActionId { id: "action.events_gestures.tap" },
            },
        ],
        input: InputEventPayload { value: "Ada" },
        keyboard: KeyboardSubmitPayload { value: "Ada" },
        draw: DrawEventPayload { frame_number: 1 },
        visibility: VisibilityEventPayload { visible: true },
        frame: FrameObserverPayload { frame_number: 2 },
    }
}

/// The events and gestures payload.
pub fn events_payload() -> (r: DslSurfacePayload)
    ensures
        r == DslSurfacePayload::EventsGestures(events_surface()),
{
    DslSurfacePayload::EventsGestures(
        EventsGesturesSurface {
            bindings: [
                EventBinding {
                    node_id: NodeId { id: "node.events_gestures.root" },
                    kind: EventKind::Tap,
                    action_id: ActionId { id: "action.events_gestures.tap" },
                },
                EventBinding {
                    node_id: NodeId { id: "node.events_gestures.root" },
                    kind: EventKind::Press,
                    action_id: ActionId { id: "action.events_gestures.tap" },
                },
                EventBinding {
                    node_id: NodeId { id: "node.events_gestures.root" },
                    kind: EventKind::LongPress,
                    action_id: ActionId { id: "action.events_gestures.tap" },
                },
                EventBinding {
                    node_id: NodeId { id: "node.events_gestures.root" },
                    kind: EventKind::Pan,
                    action_id: ActionId { id: "action.events_gestures.tap" },
                },
                EventBinding {
                    node_id: NodeId { id: "node.events_gestures.scroll" },
                    kind: EventKind::Scroll,
                    action_id: ActionId { id: "action.events_gestures.tap" },
                },
                EventBinding {
                    node_id: NodeId { id: "node.events_gestures.input" },
                    kind: EventKind::Focus,
                    action_id: ActionId { id: "action.events_gestures.tap" },
                },
                EventBinding {
                    node_id: NodeId { id: "node.events_gestures.input" },
                    kind: EventKind::Blur,
                    action_id: ActionId { id: "action.events_gestures.tap" },
                },
                EventBinding {
                    node_id: NodeId { id: "node.events_gestures.input" },
                    kind: EventKind::Input,
                    action_id: ActionId { id: "action.events_gestures.tap" },
                },
                EventBinding {
                    node_id: NodeId { id: "node.events_gestures.input" },
                    kind: EventKind::KeyboardSubmit,
                    action_id: ActionId { id: "action.events_gestures.tap" },
                },
                EventBinding {
                    node_id: NodeId { id: "node.events_gestures.root" },
                    kind: EventKind::Layout,
                    action_id: ActionId { id: "action.events_gestures.tap" },
                },
                EventBinding {
                    node_id: NodeId { id: "node.events_gestures.draw" },
                    kind: EventKind::Draw,
                    action_id: ActionId { id: "action.events_gestures.tap" },
                },
                EventBinding {
                    node_id: NodeId { id: "node.events_gestures.root" },
                    kind: EventKind::Visibility,
                    action_id: ActionId { id: "action.events_gestures.tap" },
                },
                EventBinding {
                    node_id: NodeId { id: "node.events_gestures.root" },
                    kind: EventKind::FrameObserver,
                    action_id: ActionId { id: "action.events_gestures.tap" },
                },
                EventBinding {
                    node_id: NodeId { id: "node.events_gestures.native" },
                    kind: EventKind::CustomNative(CustomNativeEventSpec { event_name: "camera.ready" }),
                    action_id: ActionId { id: "action.events_gestures.tap" },
                },
            ],
            input: InputEventPayload { value: "Ada" },
            keyboard: KeyboardSubmitPayload { value: "Ada" },
            draw: DrawEventPayload { frame_number: 1 },
            visibility: VisibilityEventPayload { visible: true },
            frame: FrameObserverPayload { frame_number: 2 },
        },
    )
}

/// What the DSL's tree structure payload declares.
pub open spec fn tree_structure_surface() -> TreeStructureSurface {
    TreeStructureSurface {
        document: UiDocument {
            root: RootNode { node_id: NodeId { id: "node.tree_structure.root" } },
            component_id: ComponentId { id: "component.tree_structure" },
        },
        nodes: [
            UiNode {
                node_id: NodeId { id: "node.tree_structure.root" },
                kind: ElementKind::View,
                state_id: Some(StateId { id: "state.tree_structure.context" }),
            },
            UiNode {
                node_id: NodeId { id: "node.tree_structure.child" },
                kind: ElementKind::Text,
                state_id: None,
            },
        ],
        children: [
            TreeChild {
                parent_id: NodeId { id: "node.tree_structure.root" },
                child_id: NodeId { id: "node.tree_structure.child" },
                order: ChildOrder(0),
                key: Some(KeyId { id: "key.tree_structure.child" }),
            },
        ],
        fragment: FragmentNode { node_id: NodeId { id: "node.tree_structure.fragment" } },
        slot: SlotNode { node_id: NodeId { id: "node.tree_structure.slot" }, slot_name: "leading" },
        portal: PortalNode { node_id: NodeId { id: "node.tree_structure.portal" }, target: "overlay" },
        context: ContextScope {
            node_id: NodeId { id: "node.tree_structure.root" },
            state_id: StateId { id: "state.tree_structure.context" },
        },
        destruction_policy: DestructionPolicy::PreserveForPool,
        pooling_policy: PoolingPolicy::ReusableByKind(ElementKind::View),
    }
}

/// The tree structure payload.
pub fn tree_structure_payload() -> (r: DslSurfacePayload)
    ensures
        r == DslSurfacePayload::TreeStructure(tree_structure_surface()),
{
    let root = NodeId::new("node.tree_structure.root");
    let state = StateId::new("state.tree_structure.context");
    DslSurfacePayload::TreeStructure(
        TreeStructureSurface {
            document: UiDocument {
                root: RootNode { node_id: root },
                component_id: ComponentId { id: "component.tree_structure" },
            },
            nodes: [
                UiNode {
                    node_id: NodeId { id: "node.tree_structure.root" },
                    kind: ElementKind::View,
                    state_id: Some(StateId { id: "state.tree_structure.context" }),
                },
                UiNode {
                    node_id: NodeId { id: "node.tree_structure.child" },
                    kind: ElementKind::Text,
                    state_id: None,
                },
            ],
            children: [
                TreeChild {
                    parent_id: NodeId { id: "node.tree_structure.root" },
                    child_id: NodeId { id: "node.tree_structure.child" },
                    order: ChildOrder(0),
                    key: Some(KeyId { id: "key.tree_structure.child" }),
                },
            ],
            fragment: FragmentNode { node_id: NodeId::new("node.tree_structure.fragment") },
            slot: SlotNode { node_id: NodeId::new("node.tree_structure.slot"), slot_name: "leading" },
            portal: PortalNode {
                node_id: NodeId::new("node.tree_structure.portal"),
                target: "overlay",
            },
            context: ContextScope { node_id: root, state_id: state },
            destruction_policy: DestructionPolicy::PreserveForPool,
            pooling_policy: PoolingPolicy::ReusableByKind(ElementKind::View),
        },
    )
}

/// What the DSL's dynamic UI payload declares.
pub open spec fn dynamic_ui_surface() -> DynamicUiSurface {
    DynamicUiSurface {
        producer: DynamicUiProducer { name: "rust_dsl_home", validated: true },
        input: DynamicUiSourceKind::InMemory(InMemoryProducerTag { name: "dsl.memory" }),
        generated_fixture: GeneratedFixtureRef { fixture_name: "contract.dynamic_ui.v1" },
        debug_json: DebugJsonLabel { label: "//valdi_rust/fixtures:dynamic_ui_debug_json" },
        binary_bytes: BinaryBytesLabel { label: "//valdi_rust/fixtures:dynamic_ui_binary" },
    }
}

/// What the DSL's TypeScript compatibility payload declares.
pub open spec fn ts_compatibility_surface() -> TsCompatibilitySurface {
    TsCompatibilitySurface {
        coverage: TsxCoverageMap { feature: "tsx_to_ir_equivalence", covered: true },
        equivalent_ir: true,
        equivalence: TsxToIrEquivalence { fixture_name: "contract.ts_compatibility.v1" },
        dependency_check: RustPathDependencyCheck { excludes_typescript_runtime: true },
    }
}

/// The dynamic UI payload's declarations.
pub(crate) fn dynamic_ui_payload() -> (r: DynamicUiSurface)
    ensures
        r == dynamic_ui_surface(),
{
    DynamicUiSurface {
        producer: DynamicUiProducer { name: "rust_dsl_home", validated: true },
        input: DynamicUiSourceKind::InMemory(InMemoryProducerTag { name: "dsl.memory" }),
        generated_fixture: GeneratedFixtureRef { fixture_name: "contract.dynamic_ui.v1" },
        debug_json: DebugJsonLabel { label: "//valdi_rust/fixtures:dynamic_ui_debug_json" },
        binary_bytes: BinaryBytesLabel { label: "//valdi_rust/fixtures:dynamic_ui_binary" },
    }
}

/// The TypeScript compatibility payload's declarations.
pub(crate) fn ts_compatibility_payload() -> (r: TsCompatibilitySurface)
    ensures
        r == ts_compatibility_surface(),
{
    TsCompatibilitySurface {
        coverage: TsxCoverageMap { feature: "tsx_to_ir_equivalence", covered: true },
        equivalent_ir: true,
        equivalence: TsxToIrEquivalence { fixture_name: "contract.ts_compatibility.v1" },
        dependency_check: RustPathDependencyCheck { excludes_typescript_runtime: true },
    }
}

/// The part of a document that is compared with the canonical IR.
#[derive(Clone, Debug, PartialEq, Eq)]
pub struct DslCanonicalDebug {
    pub contract_surface: String,
    pub root_node_id: String,
    pub component_id: String,
    pub source_span: Option<String>,
    pub coverage_tokens: Vec<String>,
}

/// The line of the canonical snapshot for a document: row, fixture, root,
/// component, surface and coverage tokens, separated by `|`.
pub open spec fn snapshot_line_text(d: DslDocumentView) -> Seq<char> {
    d.contract_row_id + "|"@ + d.fixture_id + "|"@ + d.root_node_id + "|"@ + d.component_id + "|"@
        + surface_text(d.payload) + "|"@ + joined(d.coverage_tokens, ","@)
}

impl DslDocument {
    pub fn canonical_debug(&self) -> (r: DslCanonicalDebug)
        ensures
            r.contract_surface@ == self.contract_row_id@,
            r.root_node_id@ == self.root_node_id@,
            r.component_id@ == self.component_id@,
            opt_text(r.source_span) == opt_text(self.source_span),
            texts(r.coverage_tokens@) == texts(self.coverage_tokens@),
    {
        DslCanonicalDebug {
            contract_surface: owned(self.contract_row_id.as_str()),
            root_node_id: owned(self.root_node_id.as_str()),
            component_id: owned(self.component_id.as_str()),
            source_span: copy_opt_text(&self.source_span),
            coverage_tokens: copy_texts(self.coverage_tokens.as_slice()),
        }
    }

    pub fn snapshot_line(&self) -> (r: String)
        ensures
            r@ == snapshot_line_text(self@),
    {
        let mut line = owned(self.contract_row_id.as_str());
        line.append("|");
        line.append(self.fixture_id.as_str());
        line.append("|");
        line.append(self.root_node_id.as_str());
        line.append("|");
        line.append(self.component_id.as_str());
        line.append("|");
        line.append(self.payload.kind_token());
        line.append("|");
        let coverage = join(self.coverage_tokens.as_slice(), ",");
        line.append(coverage.as_str());
        line
    }
}

/// The ID of a contract row's root node.
pub open spec fn root_node_text(contract_row_id: Seq<char>) -> Seq<char> {
    "node."@ + contract_row_id + ".root"@
}

/// The ID of a contract row's component.
pub open spec fn component_text(contract_row_id: Seq<char>) -> Seq<char> {
    "component."@ + contract_row_id
}

pub fn root_node_id(contract_row_id: &str) -> (r: String)
    ensures
        r@ == root_node_text(contract_row_id@),
{
    let mut id = owned("node.");
    id.append(contract_row_id);
    id.append(".root");
    id
}

pub fn component_id(contract_row_id: &str) -> (r: String)
    ensures
        r@ == component_text(contract_row_id@),
{
    let mut id = owned("component.");
    id.append(contract_row_id);
    id
}

pub const REQUIRED_ELEMENT_KINDS: [ElementKind; 12] = [
    ElementKind::View,
    ElementKind::Layout,
    ElementKind::Scroll,
    ElementKind::Image,
    ElementKind::Text,
    ElementKind::RichText,
    ElementKind::TextInput,
    ElementKind::Control,
    ElementKind::List,
    ElementKind::WebView,
    ElementKind::NativeView,
    ElementKind::DrawingHost,
];

/// Every element kind is one of the required element kinds.
pub proof fn lemma_element_kind_is_required(kind: ElementKind)
    ensures
        REQUIRED_ELEMENT_KINDS@.contains(kind),
{
    match kind {
        ElementKind::View => {
            assert(REQUIRED_ELEMENT_KINDS@[0] == kind);
        },
        ElementKind::Layout => {
            assert(REQUIRED_ELEMENT_KINDS@[1] == kind);
        },
        ElementKind::Scroll => {
            assert(REQUIRED_ELEMENT_KINDS@[2] == kind);
        },
        ElementKind::Image => {
            assert(REQUIRED_ELEMENT_KINDS@[3] == kind);
        },
        ElementKind::Text => {
            assert(REQUIRED_ELEMENT_KINDS@[4] == kind);
        },
        ElementKind::RichText => {
            assert(REQUIRED_ELEMENT_KINDS@[5] == kind);
        },
        ElementKind::TextInput => {
            assert(REQUIRED_ELEMENT_KINDS@[6] == kind);
        },
        ElementKind::Control => {
            assert(REQUIRED_ELEMENT_KINDS@[7] == kind);
        },
        ElementKind::List => {
            assert(REQUIRED_ELEMENT_KINDS@[8] == kind);
        },
        ElementKind::WebView => {
            assert(REQUIRED_ELEMENT_KINDS@[9] == kind);
        },
        ElementKind::NativeView => {
            assert(REQUIRED_ELEMENT_KINDS@[10] == kind);
        },
        ElementKind::DrawingHost => {
            assert(REQUIRED_ELEMENT_KINDS@[11] == kind);
        },
    }
}

} // verus!
