//! Events that nodes bind to actions, and which element kinds accept each.

use vstd::prelude::*;

use crate::dsl::diagnostics::{
    dsl_error, span_text, DslDiagnostic, DslDiagnosticView, DslResult, DSL_EVENT_ELEMENT_MISMATCH,
    DSL_SOURCE_SPAN_REQUIRED,
};
use crate::dsl::elements::{element_text, ElementKind};
use crate::dsl::ids::{ActionId, NodeId, SourceSpanId};
use crate::text::owned;

verus! {

/// The name of a custom native event.
#[derive(Clone, Copy, Debug, PartialEq, Eq)]
pub struct CustomNativeEventSpec {
    pub event_name: &'static str,
}

#[derive(Clone, Copy, Debug, PartialEq, Eq)]
pub enum EventKind {
    Tap,
    Press,
    LongPress,
    Pan,
    Scroll,
    Focus,
    Blur,
    Input,
    KeyboardSubmit,
    Layout,
    Draw,
    Visibility,
    FrameObserver,
    CustomNative(CustomNativeEventSpec),
}

/// An event of a node bound to the action it triggers.
#[derive(Clone, Copy, Debug, PartialEq, Eq)]
pub struct EventBinding {
    pub node_id: NodeId,
    pub kind: EventKind,
    pub action_id: ActionId,
}

pub const REQUIRED_EVENT_TOKENS: [&'static str; 14] = [
    "tap",
    "press",
    "long_press",
    "pan",
    "scroll",
    "focus",
    "blur",
    "input",
    "keyboard_submit",
    "layout",
    "draw",
    "visibility",
    "frame_observer",
    "custom_native",
];

/// The token that names an event kind.
pub open spec fn event_text(kind: EventKind) -> Seq<char> {
    match kind {
        EventKind::Tap => "tap"@,
        EventKind::Press => "press"@,
        EventKind::LongPress => "long_press"@,
        EventKind::Pan => "pan"@,
        EventKind::Scroll => "scroll"@,
        EventKind::Focus => "focus"@,
        EventKind::Blur => "blur"@,
        EventKind::Input => "input"@,
        EventKind::KeyboardSubmit => "keyboard_submit"@,
        EventKind::Layout => "layout"@,
        EventKind::Draw => "draw"@,
        EventKind::Visibility => "visibility"@,
        EventKind::FrameObserver => "frame_observer"@,
        EventKind::CustomNative(_) => "custom_native"@,
    }
}

pub fn event_token(kind: EventKind) -> (r: &'static str)
    ensures
        r@ == event_text(kind),
{
    match kind {
        EventKind::Tap => "tap",
        EventKind::Press => "press",
        EventKind::LongPress => "long_press",
        EventKind::Pan => "pan",
        EventKind::Scroll => "scroll",
        EventKind::Focus => "focus",
        EventKind::Blur => "blur",
        EventKind::Input => "input",
        EventKind::KeyboardSubmit => "keyboard_submit",
        EventKind::Layout => "layout",
        EventKind::Draw => "draw",
        EventKind::Visibility => "visibility",
        EventKind::FrameObserver => "frame_observer",
        EventKind::CustomNative(_) => "custom_native",
    }
}

/// Whether an element of kind `element` accepts events of kind `kind`:
/// gestures on interactive elements, scrolling on scrollable ones, text
/// events on text inputs, drawing on drawing hosts, custom native events on
/// native views and web views, and layout, visibility and frame observers on
/// every element.
pub open spec fn event_allowed(element: ElementKind, kind: EventKind) -> bool {
    match kind {
        EventKind::Tap | EventKind::Press | EventKind::LongPress | EventKind::Pan => {
            element == ElementKind::View || element == ElementKind::Control || element
                == ElementKind::Image || element == ElementKind::Text || element
                == ElementKind::NativeView
        },
        EventKind::Scroll => element == ElementKind::Scroll || element == ElementKind::List,
        EventKind::Focus | EventKind::Blur | EventKind::Input | EventKind::KeyboardSubmit => {
            element == ElementKind::TextInput
        },
        EventKind::Layout | EventKind::Visibility | EventKind::FrameObserver => true,
        EventKind::Draw => element == ElementKind::DrawingHost,
        EventKind::CustomNative(_) => element == ElementKind::NativeView || element
            == ElementKind::WebView,
    }
}

/// The check of an event binding on an element: a source span is required
/// first, then the pair must be accepted; an accepted binding is returned.
pub open spec fn event_check(
    element: ElementKind,
    binding: EventBinding,
    source_span_id: Option<Seq<char>>,
) -> Result<EventBinding, DslDiagnosticView> {
    if source_span_id is None {
        Err(
            dsl_error(
                DSL_SOURCE_SPAN_REQUIRED@,
                "$.nodes[].events[]"@,
                "event "@ + event_text(binding.kind) + " requires a DSL source span"@,
                None,
            ),
        )
    } else if event_allowed(element, binding.kind) {
        Ok(binding)
    } else {
        Err(
            dsl_error(
                DSL_EVENT_ELEMENT_MISMATCH@,
                "$.nodes[].events[]"@,
                "event "@ + event_text(binding.kind) + " is not valid for element "@
                    + element_text(element),
                source_span_id,
            ),
        )
    }
}

/// Which elements take each event, once a source span is given: tap, press,
/// long press and pan on views, controls, images, texts and native views;
/// scrolling on scroll views and lists; focus, blur, input and keyboard
/// submission on text inputs; layout, visibility and frame observers on every
/// element; drawing on drawing hosts; custom native events on native views
/// and web views.  An accepted binding comes back unchanged; any other
/// pairing is refused with `DSL_EVENT_ELEMENT_MISMATCH`, and without a span
/// every binding is refused with `DSL_SOURCE_SPAN_REQUIRED`.
pub proof fn lemma_event_element_table(
    element: ElementKind,
    binding: EventBinding,
    source_span_id: Option<Seq<char>>,
)
    ensures
        ({
            let r = event_check(element, binding, source_span_id);
            let k = binding.kind;
            &&& source_span_id is None ==> r is Err && r->Err_0.code == DSL_SOURCE_SPAN_REQUIRED@
            &&& source_span_id is Some ==> {
                &&& (k is Tap || k is Press || k is LongPress || k is Pan) ==> (r is Ok <==> (
                element is View || element is Control || element is Image || element is Text
                    || element is NativeView))
                &&& k is Scroll ==> (r is Ok <==> (element is Scroll || element is List))
                &&& (k is Focus || k is Blur || k is Input || k is KeyboardSubmit) ==> (r is Ok
                    <==> element is TextInput)
                &&& (k is Layout || k is Visibility || k is FrameObserver) ==> r is Ok
                &&& k is Draw ==> (r is Ok <==> element is DrawingHost)
                &&& k is CustomNative ==> (r is Ok <==> (element is NativeView
                    || element is WebView))
                &&& r is Ok ==> r->Ok_0 == binding
                &&& r is Err ==> r->Err_0.code == DSL_EVENT_ELEMENT_MISMATCH@
            }
        }),
{
}

/// The outcome of an event check, with the diagnostic taken by its view.
pub open spec fn event_outcome(r: DslResult<EventBinding>) -> Result<
    EventBinding,
    DslDiagnosticView,
> {
    match r {
        Ok(b) => Ok(b),
        Err(d) => Err(d@),
    }
}

fn accepts_event(element: ElementKind, kind: EventKind) -> (r: bool)
    ensures
        r == event_allowed(element, kind),
{
    match kind {
        EventKind::Tap | EventKind::Press | EventKind::LongPress | EventKind::Pan => {
            matches!(
                element,
                ElementKind::View | ElementKind::Control | ElementKind::Image | ElementKind::Text
                    | ElementKind::NativeView
            )
        },
        EventKind::Scroll => matches!(element, ElementKind::Scroll | ElementKind::List),
        EventKind::Focus | EventKind::Blur | EventKind::Input | EventKind::KeyboardSubmit => {
            matches!(element, ElementKind::TextInput)
        },
        EventKind::Layout | EventKind::Visibility | EventKind::FrameObserver => true,
        EventKind::Draw => matches!(element, ElementKind::DrawingHost),
        EventKind::CustomNative(_) => matches!(element, ElementKind::NativeView | ElementKind::WebView),
    }
}

pub fn validate_event_for_element(
    element_kind: ElementKind,
    binding: EventBinding,
    source_span_id: Option<SourceSpanId>,
) -> (r: DslResult<EventBinding>)
    ensures
        event_outcome(r) == event_check(element_kind, binding, span_text(source_span_id)),
{
    if source_span_id.is_none() {
        let mut message = owned("event ");
        message.append(event_token(binding.kind));
        message.append(" requires a DSL source span");
        return Err(DslDiagnostic::error(DSL_SOURCE_SPAN_REQUIRED, "$.nodes[].events[]", message, None));
    }
    if accepts_event(element_kind, binding.kind) {
        return Ok(binding);
    }
    let mut message = owned("event ");
    message.append(event_token(binding.kind));
    message.append(" is not valid for element ");
    message.append(element_kind.contract_token());
    Err(
        DslDiagnostic::error(
            DSL_EVENT_ELEMENT_MISMATCH,
            "$.nodes[].events[]",
            message,
            source_span_id,
        ),
    )
}

/// The texts of the required event tokens.
pub open spec fn required_event_tokens() -> Seq<Seq<char>> {
    REQUIRED_EVENT_TOKENS@.map_values(|t: &'static str| t@)
}

/// Every event kind's token is one of the required event tokens.
pub proof fn lemma_event_token_is_required(kind: EventKind)
    ensures
        required_event_tokens().contains(event_text(kind)),
{
    let tokens = required_event_tokens();
    match kind {
        EventKind::Tap => {
            assert(tokens[0] == event_text(kind));
        },
        EventKind::Press => {
            assert(tokens[1] == event_text(kind));
        },
        EventKind::LongPress => {
            assert(tokens[2] == event_text(kind));
        },
        EventKind::Pan => {
            assert(tokens[3] == event_text(kind));
        },
        EventKind::Scroll => {
            assert(tokens[4] == event_text(kind));
        },
        EventKind::Focus => {
            assert(tokens[5] == event_text(kind));
        },
        EventKind::Blur => {
            assert(tokens[6] == event_text(kind));
        },
        EventKind::Input => {
            assert(tokens[7] == event_text(kind));
        },
        EventKind::KeyboardSubmit => {
            assert(tokens[8] == event_text(kind));
        },
        EventKind::Layout => {
            assert(tokens[9] == event_text(kind));
        },
        EventKind::Draw => {
            assert(tokens[10] == event_text(kind));
        },
        EventKind::Visibility => {
            assert(tokens[11] == event_text(kind));
        },
        EventKind::FrameObserver => {
            assert(tokens[12] == event_text(kind));
        },
        EventKind::CustomNative(_) => {
            assert(tokens[13] == event_text(kind));
        },
    }
}

} // verus!
