use vstd::prelude::*;

use crate::backend::capabilities::BackendCapability;

verus! {

#[derive(Clone, Copy, Debug, PartialEq, Eq, Structural)]
pub enum BackendOperationFamily {
    Create,
    Destroy,
    Root,
    Move,
    AttributeStyle,
    AnimationStart,
    AnimationEnd,
    AnimationCancel,
    LayoutCallback,
    DrawCallback,
    VisibilityObserver,
    FrameObserver,
    AssetLoad,
    TextMeasure,
    NativeViewMount,
    WebViewMount,
    TransactionGroup,
}

/// The name of an operation family.
pub open spec fn family_text(family: BackendOperationFamily) -> Seq<char> {
    match family {
        BackendOperationFamily::Create => "create"@,
        BackendOperationFamily::Destroy => "destroy"@,
        BackendOperationFamily::Root => "root"@,
        BackendOperationFamily::Move => "move"@,
        BackendOperationFamily::AttributeStyle => "attribute_style"@,
        BackendOperationFamily::AnimationStart => "animation_start"@,
        BackendOperationFamily::AnimationEnd => "animation_end"@,
        BackendOperationFamily::AnimationCancel => "animation_cancel"@,
        BackendOperationFamily::LayoutCallback => "layout_callback"@,
        BackendOperationFamily::DrawCallback => "draw_callback"@,
        BackendOperationFamily::VisibilityObserver => "visibility_observer"@,
        BackendOperationFamily::FrameObserver => "frame_observer"@,
        BackendOperationFamily::AssetLoad => "asset_load"@,
        BackendOperationFamily::TextMeasure => "text_measure"@,
        BackendOperationFamily::NativeViewMount => "native_view_mount"@,
        BackendOperationFamily::WebViewMount => "webview_mount"@,
        BackendOperationFamily::TransactionGroup => "transaction_group"@,
    }
}

/// The diagnostic path of an operation family.
pub open spec fn family_path(family: BackendOperationFamily) -> Seq<char> {
    match family {
        BackendOperationFamily::Create => "$.operations[].create"@,
        BackendOperationFamily::Destroy => "$.operations[].destroy"@,
        BackendOperationFamily::Root => "$.operations[].root"@,
        BackendOperationFamily::Move => "$.operations[].move"@,
        BackendOperationFamily::AttributeStyle => "$.operations[].attribute_style"@,
        BackendOperationFamily::AnimationStart => "$.operations[].animation_start"@,
        BackendOperationFamily::AnimationEnd => "$.operations[].animation_end"@,
        BackendOperationFamily::AnimationCancel => "$.operations[].animation_cancel"@,
        BackendOperationFamily::LayoutCallback => "$.operations[].layout_callback"@,
        BackendOperationFamily::DrawCallback => "$.operations[].draw_callback"@,
        BackendOperationFamily::VisibilityObserver => "$.operations[].visibility_observer"@,
        BackendOperationFamily::FrameObserver => "$.operations[].frame_observer"@,
        BackendOperationFamily::AssetLoad => "$.operations[].asset_load"@,
        BackendOperationFamily::TextMeasure => "$.operations[].text_measure"@,
        BackendOperationFamily::NativeViewMount => "$.operations[].native_view_mount"@,
        BackendOperationFamily::WebViewMount => "$.operations[].webview_mount"@,
        BackendOperationFamily::TransactionGroup => "$.operations[].transaction_group"@,
    }
}

/// The capability a backend needs to apply operations of a family.
pub open spec fn family_capability(family: BackendOperationFamily) -> BackendCapability {
    match family {
        BackendOperationFamily::Create => BackendCapability::ViewTree,
        BackendOperationFamily::Destroy => BackendCapability::ViewTree,
        BackendOperationFamily::Root => BackendCapability::ViewTree,
        BackendOperationFamily::Move => BackendCapability::ViewTree,
        BackendOperationFamily::AttributeStyle => BackendCapability::AttributesAndStyle,
        BackendOperationFamily::AnimationStart => BackendCapability::Animations,
        BackendOperationFamily::AnimationEnd => BackendCapability::Animations,
        BackendOperationFamily::AnimationCancel => BackendCapability::Animations,
        BackendOperationFamily::LayoutCallback => BackendCapability::LayoutCallbacks,
        BackendOperationFamily::DrawCallback => BackendCapability::DrawCallbacks,
        BackendOperationFamily::VisibilityObserver => BackendCapability::VisibilityObservers,
        BackendOperationFamily::FrameObserver => BackendCapability::FrameObservers,
        BackendOperationFamily::AssetLoad => BackendCapability::AssetLoading,
        BackendOperationFamily::TextMeasure => BackendCapability::TextMeasurement,
        BackendOperationFamily::NativeViewMount => BackendCapability::NativeViewMount,
        BackendOperationFamily::WebViewMount => BackendCapability::WebViewMount,
        BackendOperationFamily::TransactionGroup => BackendCapability::TransactionGroups,
    }
}

impl BackendOperationFamily {
    pub fn as_str(self) -> (r: &'static str)
        ensures
            r@ == family_text(self),
    {
        match self {
            BackendOperationFamily::Create => "create",
            BackendOperationFamily::Destroy => "destroy",
            BackendOperationFamily::Root => "root",
            BackendOperationFamily::Move => "move",
            BackendOperationFamily::AttributeStyle => "attribute_style",
            BackendOperationFamily::AnimationStart => "animation_start",
            BackendOperationFamily::AnimationEnd => "animation_end",
            BackendOperationFamily::AnimationCancel => "animation_cancel",
            BackendOperationFamily::LayoutCallback => "layout_callback",
            BackendOperationFamily::DrawCallback => "draw_callback",
            BackendOperationFamily::VisibilityObserver => "visibility_observer",
            BackendOperationFamily::FrameObserver => "frame_observer",
            BackendOperationFamily::AssetLoad => "asset_load",
            BackendOperationFamily::TextMeasure => "text_measure",
            BackendOperationFamily::NativeViewMount => "native_view_mount",
            BackendOperationFamily::WebViewMount => "webview_mount",
            BackendOperationFamily::TransactionGroup => "transaction_group",
        }
    }

    pub fn diagnostic_path(self) -> (r: &'static str)
        ensures
            r@ == family_path(self),
    {
        match self {
            BackendOperationFamily::Create => "$.operations[].create",
            BackendOperationFamily::Destroy => "$.operations[].destroy",
            BackendOperationFamily::Root => "$.operations[].root",
            BackendOperationFamily::Move => "$.operations[].move",
            BackendOperationFamily::AttributeStyle => "$.operations[].attribute_style",
            BackendOperationFamily::AnimationStart => "$.operations[].animation_start",
            BackendOperationFamily::AnimationEnd => "$.operations[].animation_end",
            BackendOperationFamily::AnimationCancel => "$.operations[].animation_cancel",
            BackendOperationFamily::LayoutCallback => "$.operations[].layout_callback",
            BackendOperationFamily::DrawCallback => "$.operations[].draw_callback",
            BackendOperationFamily::VisibilityObserver => "$.operations[].visibility_observer",
            BackendOperationFamily::FrameObserver => "$.operations[].frame_observer",
            BackendOperationFamily::AssetLoad => "$.operations[].asset_load",
            BackendOperationFamily::TextMeasure => "$.operations[].text_measure",
            BackendOperationFamily::NativeViewMount => "$.operations[].native_view_mount",
            BackendOperationFamily::WebViewMount => "$.operations[].webview_mount",
            BackendOperationFamily::TransactionGroup => "$.operations[].transaction_group",
        }
    }

    pub fn required_capability(self) -> (r: BackendCapability)
        ensures
            r == family_capability(self),
    {
        match self {
            BackendOperationFamily::Create => BackendCapability::ViewTree,
            BackendOperationFamily::Destroy => BackendCapability::ViewTree,
            BackendOperationFamily::Root => BackendCapability::ViewTree,
            BackendOperationFamily::Move => BackendCapability::ViewTree,
            BackendOperationFamily::AttributeStyle => BackendCapability::AttributesAndStyle,
            BackendOperationFamily::AnimationStart => BackendCapability::Animations,
            BackendOperationFamily::AnimationEnd => BackendCapability::Animations,
            BackendOperationFamily::AnimationCancel => BackendCapability::Animations,
            BackendOperationFamily::LayoutCallback => BackendCapability::LayoutCallbacks,
            BackendOperationFamily::DrawCallback => BackendCapability::DrawCallbacks,
            BackendOperationFamily::VisibilityObserver => BackendCapability::VisibilityObservers,
            BackendOperationFamily::FrameObserver => BackendCapability::FrameObservers,
            BackendOperationFamily::AssetLoad => BackendCapability::AssetLoading,
            BackendOperationFamily::TextMeasure => BackendCapability::TextMeasurement,
            BackendOperationFamily::NativeViewMount => BackendCapability::NativeViewMount,
            BackendOperationFamily::WebViewMount => BackendCapability::WebViewMount,
            BackendOperationFamily::TransactionGroup => BackendCapability::TransactionGroups,
        }
    }
}

/// The capability each operation family needs: the view tree for create,
/// destroy, root and move; attributes and style for style changes;
/// animations for the start, end and cancellation of an animation; layout
/// callbacks, draw callbacks, visibility observers and frame observers for
/// their events; asset loading, text measurement, native view mounting and
/// web view mounting for their operations; transaction groups for a
/// transaction group.
pub proof fn lemma_family_capability_table(family: BackendOperationFamily)
    ensures
        (family is Create || family is Destroy || family is Root || family is Move)
            <==> family_capability(family) == BackendCapability::ViewTree,
        family is AttributeStyle <==> family_capability(family)
            == BackendCapability::AttributesAndStyle,
        (family is AnimationStart || family is AnimationEnd || family is AnimationCancel)
            <==> family_capability(family) == BackendCapability::Animations,
        family is LayoutCallback <==> family_capability(family) == BackendCapability::LayoutCallbacks,
        family is DrawCallback <==> family_capability(family) == BackendCapability::DrawCallbacks,
        family is VisibilityObserver <==> family_capability(family)
            == BackendCapability::VisibilityObservers,
        family is FrameObserver <==> family_capability(family) == BackendCapability::FrameObservers,
        family is AssetLoad <==> family_capability(family) == BackendCapability::AssetLoading,
        family is TextMeasure <==> family_capability(family) == BackendCapability::TextMeasurement,
        family is NativeViewMount <==> family_capability(family)
            == BackendCapability::NativeViewMount,
        family is WebViewMount <==> family_capability(family) == BackendCapability::WebViewMount,
        family is TransactionGroup <==> family_capability(family)
            == BackendCapability::TransactionGroups,
{
}

/// The diagnostic path of a family is its name under `$.operations[].`.
pub proof fn lemma_family_path_names_family(family: BackendOperationFamily)
    ensures
        family_path(family) == "$.operations[]."@ + family_text(family),
{
    reveal_strlit("$.operations[].");
    match family {
        BackendOperationFamily::Create => {
            reveal_strlit("$.operations[].create");
            reveal_strlit("create");
            assert(family_path(family) =~= "$.operations[]."@ + family_text(family));
        },
        BackendOperationFamily::Destroy => {
            reveal_strlit("$.operations[].destroy");
            reveal_strlit("destroy");
            assert(family_path(family) =~= "$.operations[]."@ + family_text(family));
        },
        BackendOperationFamily::Root => {
            reveal_strlit("$.operations[].root");
            reveal_strlit("root");
            assert(family_path(family) =~= "$.operations[]."@ + family_text(family));
        },
        BackendOperationFamily::Move => {
            reveal_strlit("$.operations[].move");
            reveal_strlit("move");
            assert(family_path(family) =~= "$.operations[]."@ + family_text(family));
        },
        BackendOperationFamily::AttributeStyle => {
            reveal_strlit("$.operations[].attribute_style");
            reveal_strlit("attribute_style");
            assert(family_path(family) =~= "$.operations[]."@ + family_text(family));
        },
        BackendOperationFamily::AnimationStart => {
            reveal_strlit("$.operations[].animation_start");
            reveal_strlit("animation_start");
            assert(family_path(family) =~= "$.operations[]."@ + family_text(family));
        },
        BackendOperationFamily::AnimationEnd => {
            reveal_strlit("$.operations[].animation_end");
            reveal_strlit("animation_end");
            assert(family_path(family) =~= "$.operations[]."@ + family_text(family));
        },
        BackendOperationFamily::AnimationCancel => {
            reveal_strlit("$.operations[].animation_cancel");
            reveal_strlit("animation_cancel");
            assert(family_path(family) =~= "$.operations[]."@ + family_text(family));
        },
        BackendOperationFamily::LayoutCallback => {
            reveal_strlit("$.operations[].layout_callback");
            reveal_strlit("layout_callback");
            assert(family_path(family) =~= "$.operations[]."@ + family_text(family));
        },
        BackendOperationFamily::DrawCallback => {
            reveal_strlit("$.operations[].draw_callback");
            reveal_strlit("draw_callback");
            assert(family_path(family) =~= "$.operations[]."@ + family_text(family));
        },
        BackendOperationFamily::VisibilityObserver => {
            reveal_strlit("$.operations[].visibility_observer");
            reveal_strlit("visibility_observer");
            assert(family_path(family) =~= "$.operations[]."@ + family_text(family));
        },
        BackendOperationFamily::FrameObserver => {
            reveal_strlit("$.operations[].frame_observer");
            reveal_strlit("frame_observer");
            assert(family_path(family) =~= "$.operations[]."@ + family_text(family));
        },
        BackendOperationFamily::AssetLoad => {
            reveal_strlit("$.operations[].asset_load");
            reveal_strlit("asset_load");
            assert(family_path(family) =~= "$.operations[]."@ + family_text(family));
        },
        BackendOperationFamily::TextMeasure => {
            reveal_strlit("$.operations[].text_measure");
            reveal_strlit("text_measure");
            assert(family_path(family) =~= "$.operations[]."@ + family_text(family));
        },
        BackendOperationFamily::NativeViewMount => {
            reveal_strlit("$.operations[].native_view_mount");
            reveal_strlit("native_view_mount");
            assert(family_path(family) =~= "$.operations[]."@ + family_text(family));
        },
        BackendOperationFamily::WebViewMount => {
            reveal_strlit("$.operations[].webview_mount");
            reveal_strlit("webview_mount");
            assert(family_path(family) =~= "$.operations[]."@ + family_text(family));
        },
        BackendOperationFamily::TransactionGroup => {
            reveal_strlit("$.operations[].transaction_group");
            reveal_strlit("transaction_group");
            assert(family_path(family) =~= "$.operations[]."@ + family_text(family));
        },
    }
}

/// Every operation family a backend contract must cover, in order.
pub const REQUIRED_OPERATION_FAMILIES: [BackendOperationFamily; 17] = [
    BackendOperationFamily::Create,
    BackendOperationFamily::Destroy,
    BackendOperationFamily::Root,
    BackendOperationFamily::Move,
    BackendOperationFamily::AttributeStyle,
    BackendOperationFamily::AnimationStart,
    BackendOperationFamily::AnimationEnd,
    BackendOperationFamily::AnimationCancel,
    BackendOperationFamily::LayoutCallback,
    BackendOperationFamily::DrawCallback,
    BackendOperationFamily::VisibilityObserver,
    BackendOperationFamily::FrameObserver,
    BackendOperationFamily::AssetLoad,
    BackendOperationFamily::TextMeasure,
    BackendOperationFamily::NativeViewMount,
    BackendOperationFamily::WebViewMount,
    BackendOperationFamily::TransactionGroup,
];

#[derive(Clone, Copy, Debug, PartialEq, Eq, Structural)]
pub enum AnimationLifecycle {
    Start,
    End,
    Cancel,
}

#[derive(Clone, Copy, Debug, PartialEq, Eq, Structural)]
pub enum TransactionPhase {
    Begin,
    Commit,
    Cancel,
}

#[derive(Clone, Copy, Debug, PartialEq, Eq)]
pub enum AttributeName {
    AccessibilityLabel,
    TestIdentifier,
    InputValue,
    NativeViewAttribute(&'static str),
}

/// A backend operation, holding what the contract reads of it: its kind, the
/// lifecycle of an animation and the phase of a transaction group.
#[derive(Clone, Copy, Debug, PartialEq, Eq, Structural)]
pub enum BackendOperation {
    Create,
    Destroy,
    Root,
    Move,
    AttributeStyle,
    Animation(AnimationLifecycle),
    LayoutCallback,
    DrawCallback,
    VisibilityObserver,
    FrameObserver,
    AssetLoad,
    TextMeasure,
    NativeViewMount,
    WebViewMount,
    TransactionGroup(TransactionPhase),
}

/// The family of an operation.
pub open spec fn operation_family(operation: BackendOperation) -> BackendOperationFamily {
    match operation {
        BackendOperation::Create => BackendOperationFamily::Create,
        BackendOperation::Destroy => BackendOperationFamily::Destroy,
        BackendOperation::Root => BackendOperationFamily::Root,
        BackendOperation::Move => BackendOperationFamily::Move,
        BackendOperation::AttributeStyle => BackendOperationFamily::AttributeStyle,
        BackendOperation::Animation(lifecycle) => match lifecycle {
            AnimationLifecycle::Start => BackendOperationFamily::AnimationStart,
            AnimationLifecycle::End => BackendOperationFamily::AnimationEnd,
            AnimationLifecycle::Cancel => BackendOperationFamily::AnimationCancel,
        },
        BackendOperation::LayoutCallback => BackendOperationFamily::LayoutCallback,
        BackendOperation::DrawCallback => BackendOperationFamily::DrawCallback,
        BackendOperation::VisibilityObserver => BackendOperationFamily::VisibilityObserver,
        BackendOperation::FrameObserver => BackendOperationFamily::FrameObserver,
        BackendOperation::AssetLoad => BackendOperationFamily::AssetLoad,
        BackendOperation::TextMeasure => BackendOperationFamily::TextMeasure,
        BackendOperation::NativeViewMount => BackendOperationFamily::NativeViewMount,
        BackendOperation::WebViewMount => BackendOperationFamily::WebViewMount,
        BackendOperation::TransactionGroup(_) => BackendOperationFamily::TransactionGroup,
    }
}

impl BackendOperation {
    pub fn family(&self) -> (r: BackendOperationFamily)
        ensures
            r == operation_family(*self),
    {
        match self {
            BackendOperation::Create => BackendOperationFamily::Create,
            BackendOperation::Destroy => BackendOperationFamily::Destroy,
            BackendOperation::Root => BackendOperationFamily::Root,
            BackendOperation::Move => BackendOperationFamily::Move,
            BackendOperation::AttributeStyle => BackendOperationFamily::AttributeStyle,
            BackendOperation::Animation(lifecycle) => match lifecycle {
                AnimationLifecycle::Start => BackendOperationFamily::AnimationStart,
                AnimationLifecycle::End => BackendOperationFamily::AnimationEnd,
                AnimationLifecycle::Cancel => BackendOperationFamily::AnimationCancel,
            },
            BackendOperation::LayoutCallback => BackendOperationFamily::LayoutCallback,
            BackendOperation::DrawCallback => BackendOperationFamily::DrawCallback,
            BackendOperation::VisibilityObserver => BackendOperationFamily::VisibilityObserver,
            BackendOperation::FrameObserver => BackendOperationFamily::FrameObserver,
            BackendOperation::AssetLoad => BackendOperationFamily::AssetLoad,
            BackendOperation::TextMeasure => BackendOperationFamily::TextMeasure,
            BackendOperation::NativeViewMount => BackendOperationFamily::NativeViewMount,
            BackendOperation::WebViewMount => BackendOperationFamily::WebViewMount,
            BackendOperation::TransactionGroup(_) => BackendOperationFamily::TransactionGroup,
        }
    }
}

} // verus!
