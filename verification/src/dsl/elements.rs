//! Element kinds and the builders that app code writes nodes with.

use vstd::prelude::*;

use crate::dsl::attributes::{
    attribute_allowed, attribute_check, validate_attribute_for_element, DslAttribute,
};
use crate::dsl::diagnostics::{DslDiagnosticView, DslResult};
use crate::dsl::events::{
    event_allowed, event_check, validate_event_for_element, EventBinding, EventKind,
};
use crate::dsl::ids::{ActionId, NodeId, SourceSpanId, StateId};
use crate::dsl::source::DslSourceSpan;
use crate::dsl::tree::{DslNode, UiNode};

verus! {

#[derive(Clone, Copy, Debug, PartialEq, Eq, Structural)]
pub enum ElementKind {
    View,
    Layout,
    Scroll,
    Image,
    Text,
    RichText,
    TextInput,
    Control,
    List,
    WebView,
    NativeView,
    DrawingHost,
}

/// The name of an element kind in the contract.
pub open spec fn element_text(kind: ElementKind) -> Seq<char> {
    match kind {
        ElementKind::View => "view"@,
        ElementKind::Layout => "layout"@,
        ElementKind::Scroll => "scroll"@,
        ElementKind::Image => "image"@,
        ElementKind::Text => "text"@,
        ElementKind::RichText => "rich_text"@,
        ElementKind::TextInput => "text_input"@,
        ElementKind::Control => "control"@,
        ElementKind::List => "list"@,
        ElementKind::WebView => "webview"@,
        ElementKind::NativeView => "native_view"@,
        ElementKind::DrawingHost => "drawing_host"@,
    }
}

impl ElementKind {
    pub fn contract_token(self) -> (r: &'static str)
        ensures
            r@ == element_text(self),
    {
        match self {
            ElementKind::View => "view",
            ElementKind::Layout => "layout",
            ElementKind::Scroll => "scroll",
            ElementKind::Image => "image",
            ElementKind::Text => "text",
            ElementKind::RichText => "rich_text",
            ElementKind::TextInput => "text_input",
            ElementKind::Control => "control",
            ElementKind::List => "list",
            ElementKind::WebView => "webview",
            ElementKind::NativeView => "native_view",
            ElementKind::DrawingHost => "drawing_host",
        }
    }
}

/// A node under construction: its attributes and events were each checked
/// against the node's element kind when they were added.
#[derive(Debug, PartialEq)]
pub struct ElementBuilder {
    node: UiNode,
    source_span_id: SourceSpanId,
    attributes: Vec<DslAttribute>,
    events: Vec<EventBinding>,
}

/// What a builder holds so far.
pub struct ElementBuilderView {
    pub node: UiNode,
    pub source_span_id: SourceSpanId,
    pub attributes: Seq<DslAttribute>,
    pub events: Seq<EventBinding>,
}

impl View for ElementBuilder {
    type V = ElementBuilderView;

    closed spec fn view(&self) -> ElementBuilderView {
        ElementBuilderView {
            node: self.node,
            source_span_id: self.source_span_id,
            attributes: self.attributes@,
            events: self.events@,
        }
    }
}

/// Whether every attribute and event of a node suits its element kind, and
/// every event is bound to the node itself.
pub open spec fn node_accepts_all(
    node: UiNode,
    attributes: Seq<DslAttribute>,
    events: Seq<EventBinding>,
) -> bool {
    &&& forall|i: int| 0 <= i < attributes.len() ==> attribute_allowed(node.kind, #[trigger] attributes[i])
    &&& forall|i: int|
        0 <= i < events.len() ==> event_allowed(node.kind, (#[trigger] events[i]).kind)
            && events[i].node_id == node.node_id
}

impl ElementBuilder {
    #[verifier::type_invariant]
    closed spec fn well_formed(self) -> bool {
        node_accepts_all(self.node, self.attributes@, self.events@)
    }

    pub fn new(kind: ElementKind, node_id: NodeId, source: DslSourceSpan) -> (r: Self)
        ensures
            r@.node == (UiNode { node_id, kind, state_id: None }),
            r@.source_span_id == source.id,
            r@.attributes.len() == 0,
            r@.events.len() == 0,
    {
        ElementBuilder {
            node: UiNode { node_id, kind, state_id: None },
            source_span_id: source.id,
            attributes: Vec::new(),
            events: Vec::new(),
        }
    }

    /// The builder with the node scoped to `state_id`.
    pub fn state(self, state_id: StateId) -> (r: Self)
        ensures
            r@.node == (UiNode { state_id: Some(state_id), ..self@.node }),
            r@.source_span_id == self@.source_span_id,
            r@.attributes == self@.attributes,
            r@.events == self@.events,
    {
        proof {
            use_type_invariant(&self);
        }
        let ElementBuilder { node, source_span_id, attributes, events } = self;
        ElementBuilder {
            node: UiNode { node_id: node.node_id, kind: node.kind, state_id: Some(state_id) },
            source_span_id,
            attributes,
            events,
        }
    }

    /// The builder with `attribute` added, if the node's kind accepts it.
    pub fn attr(self, attribute: DslAttribute) -> (r: DslResult<Self>)
        ensures
            match r {
                Ok(b) => {
                    &&& attribute_allowed(self@.node.kind, attribute)
                    &&& b@.node == self@.node
                    &&& b@.source_span_id == self@.source_span_id
                    &&& b@.attributes == self@.attributes.push(attribute)
                    &&& b@.events == self@.events
                },
                Err(d) => Err::<(), DslDiagnosticView>(d@) == attribute_check(
                    self@.node.kind,
                    attribute,
                    Some(self@.source_span_id@),
                ),
            },
            r is Ok <==> attribute_allowed(self@.node.kind, attribute),
    {
        proof {
            use_type_invariant(&self);
        }
        let checked = validate_attribute_for_element(
            self.node.kind,
            attribute,
            Some(self.source_span_id),
        );
        match checked {
            Err(d) => Err(d),
            Ok(_) => {
                let ElementBuilder { node, source_span_id, mut attributes, events } = self;
                attributes.push(attribute);
                Ok(ElementBuilder { node, source_span_id, attributes, events })
            },
        }
    }

    /// The builder with an event of `kind` bound to `action_id`, if the
    /// node's kind accepts it.
    pub fn on(self, kind: EventKind, action_id: ActionId) -> (r: DslResult<Self>)
        ensures
            match r {
                Ok(b) => {
                    &&& event_allowed(self@.node.kind, kind)
                    &&& b@.node == self@.node
                    &&& b@.source_span_id == self@.source_span_id
                    &&& b@.attributes == self@.attributes
                    &&& b@.events == self@.events.push(
                        EventBinding { node_id: self@.node.node_id, kind, action_id },
                    )
                },
                Err(d) => Err::<EventBinding, DslDiagnosticView>(d@) == event_check(
                    self@.node.kind,
                    EventBinding { node_id: self@.node.node_id, kind, action_id },
                    Some(self@.source_span_id@),
                ),
            },
            r is Ok <==> event_allowed(self@.node.kind, kind),
    {
        proof {
            use_type_invariant(&self);
        }
        let binding = EventBinding { node_id: self.node.node_id, kind, action_id };
        let checked = validate_event_for_element(self.node.kind, binding, Some(self.source_span_id));
        match checked {
            Err(d) => Err(d),
            Ok(accepted) => {
                let ElementBuilder { node, source_span_id, attributes, mut events } = self;
                events.push(accepted);
                Ok(ElementBuilder { node, source_span_id, attributes, events })
            },
        }
    }

    /// The node that was built; every attribute and event it carries suits
    /// its element kind.
    pub fn build(self) -> (r: DslNode)
        ensures
            r.node == self@.node,
            r.source_span_id == self@.source_span_id,
            r.attributes@ == self@.attributes,
            r.events@ == self@.events,
            node_accepts_all(r.node, r.attributes@, r.events@),
    {
        proof {
            use_type_invariant(&self);
        }
        let ElementBuilder { node, source_span_id, attributes, events } = self;
        DslNode { node, source_span_id, attributes, events }
    }
}

pub fn view(node_id: NodeId, source: DslSourceSpan) -> (r: ElementBuilder)
    ensures
        r@.node == (UiNode { node_id, kind: ElementKind::View, state_id: None }),
        r@.source_span_id == source.id,
        r@.attributes.len() == 0,
        r@.events.len() == 0,
{
    ElementBuilder::new(ElementKind::View, node_id, source)
}

pub fn layout(node_id: NodeId, source: DslSourceSpan) -> (r: ElementBuilder)
    ensures
        r@.node == (UiNode { node_id, kind: ElementKind::Layout, state_id: None }),
        r@.source_span_id == source.id,
        r@.attributes.len() == 0,
        r@.events.len() == 0,
{
    ElementBuilder::new(ElementKind::Layout, node_id, source)
}

pub fn scroll(node_id: NodeId, source: DslSourceSpan) -> (r: ElementBuilder)
    ensures
        r@.node == (UiNode { node_id, kind: ElementKind::Scroll, state_id: None }),
        r@.source_span_id == source.id,
        r@.attributes.len() == 0,
        r@.events.len() == 0,
{
    ElementBuilder::new(ElementKind::Scroll, node_id, source)
}

pub fn text(node_id: NodeId, source: DslSourceSpan) -> (r: ElementBuilder)
    ensures
        r@.node == (UiNode { node_id, kind: ElementKind::Text, state_id: None }),
        r@.source_span_id == source.id,
        r@.attributes.len() == 0,
        r@.events.len() == 0,
{
    ElementBuilder::new(ElementKind::Text, node_id, source)
}

pub fn rich_text(node_id: NodeId, source: DslSourceSpan) -> (r: ElementBuilder)
    ensures
        r@.node == (UiNode { node_id, kind: ElementKind::RichText, state_id: None }),
        r@.source_span_id == source.id,
        r@.attributes.len() == 0,
        r@.events.len() == 0,
{
    ElementBuilder::new(ElementKind::RichText, node_id, source)
}

pub fn text_input(node_id: NodeId, source: DslSourceSpan) -> (r: ElementBuilder)
    ensures
        r@.node == (UiNode { node_id, kind: ElementKind::TextInput, state_id: None }),
        r@.source_span_id == source.id,
        r@.attributes.len() == 0,
        r@.events.len() == 0,
{
    ElementBuilder::new(ElementKind::TextInput, node_id, source)
}

pub fn image(node_id: NodeId, source: DslSourceSpan) -> (r: ElementBuilder)
    ensures
        r@.node == (UiNode { node_id, kind: ElementKind::Image, state_id: None }),
        r@.source_span_id == source.id,
        r@.attributes.len() == 0,
        r@.events.len() == 0,
{
    ElementBuilder::new(ElementKind::Image, node_id, source)
}

pub fn control(node_id: NodeId, source: DslSourceSpan) -> (r: ElementBuilder)
    ensures
        r@.node == (UiNode { node_id, kind: ElementKind::Control, state_id: None }),
        r@.source_span_id == source.id,
        r@.attributes.len() == 0,
        r@.events.len() == 0,
{
    ElementBuilder::new(ElementKind::Control, node_id, source)
}

pub fn list(node_id: NodeId, source: DslSourceSpan) -> (r: ElementBuilder)
    ensures
        r@.node == (UiNode { node_id, kind: ElementKind::List, state_id: None }),
        r@.source_span_id == source.id,
        r@.attributes.len() == 0,
        r@.events.len() == 0,
{
    ElementBuilder::new(ElementKind::List, node_id, source)
}

pub fn native_view(node_id: NodeId, source: DslSourceSpan) -> (r: ElementBuilder)
    ensures
        r@.node == (UiNode { node_id, kind: ElementKind::NativeView, state_id: None }),
        r@.source_span_id == source.id,
        r@.attributes.len() == 0,
        r@.events.len() == 0,
{
    ElementBuilder::new(ElementKind::NativeView, node_id, source)
}

pub fn webview(node_id: NodeId, source: DslSourceSpan) -> (r: ElementBuilder)
    ensures
        r@.node == (UiNode { node_id, kind: ElementKind::WebView, state_id: None }),
        r@.source_span_id == source.id,
        r@.attributes.len() == 0,
        r@.events.len() == 0,
{
    ElementBuilder::new(ElementKind::WebView, node_id, source)
}

pub fn drawing_host(node_id: NodeId, source: DslSourceSpan) -> (r: ElementBuilder)
    ensures
        r@.node == (UiNode { node_id, kind: ElementKind::DrawingHost, state_id: None }),
        r@.source_span_id == source.id,
        r@.attributes.len() == 0,
        r@.events.len() == 0,
{
    ElementBuilder::new(ElementKind::DrawingHost, node_id, source)
}

} // verus!
