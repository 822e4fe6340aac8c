//! Attributes of DSL nodes, and which element kinds accept each.

use vstd::prelude::*;

use crate::dsl::diagnostics::{
    dsl_error, dsl_outcome, span_text, DslDiagnostic, DslDiagnosticView, DslResult,
    DSL_ATTRIBUTE_ELEMENT_MISMATCH, DSL_SOURCE_SPAN_REQUIRED,
};
use crate::dsl::elements::{element_text, ElementKind};
use crate::dsl::ids::SourceSpanId;
use crate::text::owned;

verus! {

/// An attribute of a node; a test identifier carries its text.
#[derive(Clone, Copy, Debug, PartialEq, Eq)]
pub enum DslAttribute {
    Layout,
    Style,
    Text,
    TextInput,
    Asset,
    Accessibility,
    AccessibilityLabel,
    NativeView,
    WebDom,
    TestIdentifier(&'static str),
}

/// The schema path of an attribute.
pub open spec fn attribute_path(attribute: DslAttribute) -> Seq<char> {
    match attribute {
        DslAttribute::Layout => "$.nodes[].attributes.layout"@,
        DslAttribute::Style => "$.nodes[].attributes.style"@,
        DslAttribute::Text => "$.nodes[].attributes.text"@,
        DslAttribute::TextInput => "$.nodes[].attributes.text_input"@,
        DslAttribute::Asset => "$.nodes[].attributes.asset"@,
        DslAttribute::Accessibility => "$.nodes[].attributes.accessibility"@,
        DslAttribute::AccessibilityLabel => "$.nodes[].attributes.accessibility_label"@,
        DslAttribute::NativeView => "$.nodes[].attributes.native_view"@,
        DslAttribute::WebDom => "$.nodes[].attributes.web_dom"@,
        DslAttribute::TestIdentifier(_) => "$.nodes[].attributes.test_identifier"@,
    }
}

/// The token that names an attribute.
pub open spec fn attribute_token(attribute: DslAttribute) -> Seq<char> {
    match attribute {
        DslAttribute::Layout => "layout"@,
        DslAttribute::Style => "style"@,
        DslAttribute::Text => "text"@,
        DslAttribute::TextInput => "text_input"@,
        DslAttribute::Asset => "asset"@,
        DslAttribute::Accessibility => "accessibility"@,
        DslAttribute::AccessibilityLabel => "accessibility_label"@,
        DslAttribute::NativeView => "native_view"@,
        DslAttribute::WebDom => "web_dom"@,
        DslAttribute::TestIdentifier(_) => "test_identifier"@,
    }
}

impl DslAttribute {
    pub fn path(self) -> (r: &'static str)
        ensures
            r@ == attribute_path(self),
    {
        match self {
            DslAttribute::Layout => "$.nodes[].attributes.layout",
            DslAttribute::Style => "$.nodes[].attributes.style",
            DslAttribute::Text => "$.nodes[].attributes.text",
            DslAttribute::TextInput => "$.nodes[].attributes.text_input",
            DslAttribute::Asset => "$.nodes[].attributes.asset",
            DslAttribute::Accessibility => "$.nodes[].attributes.accessibility",
            DslAttribute::AccessibilityLabel => "$.nodes[].attributes.accessibility_label",
            DslAttribute::NativeView => "$.nodes[].attributes.native_view",
            DslAttribute::WebDom => "$.nodes[].attributes.web_dom",
            DslAttribute::TestIdentifier(_) => "$.nodes[].attributes.test_identifier",
        }
    }

    pub fn token(self) -> (r: &'static str)
        ensures
            r@ == attribute_token(self),
    {
        match self {
            DslAttribute::Layout => "layout",
            DslAttribute::Style => "style",
            DslAttribute::Text => "text",
            DslAttribute::TextInput => "text_input",
            DslAttribute::Asset => "asset",
            DslAttribute::Accessibility => "accessibility",
            DslAttribute::AccessibilityLabel => "accessibility_label",
            DslAttribute::NativeView => "native_view",
            DslAttribute::WebDom => "web_dom",
            DslAttribute::TestIdentifier(_) => "test_identifier",
        }
    }
}

pub const REQUIRED_ATTRIBUTE_TOKENS: [&'static str; 10] = [
    "layout",
    "style",
    "text",
    "text_input",
    "asset",
    "accessibility",
    "accessibility_label",
    "native_view",
    "web_dom",
    "test_identifier",
];

/// Whether an element of `kind` accepts `attribute`: layout, style,
/// accessibility and test identifiers suit every element; the others only
/// the elements that render them.
pub open spec fn attribute_allowed(kind: ElementKind, attribute: DslAttribute) -> bool {
    match attribute {
        DslAttribute::Layout | DslAttribute::Style | DslAttribute::Accessibility
        | DslAttribute::AccessibilityLabel | DslAttribute::TestIdentifier(_) => true,
        DslAttribute::Text => kind == ElementKind::Text || kind == ElementKind::RichText,
        DslAttribute::TextInput => kind == ElementKind::TextInput,
        DslAttribute::Asset => kind == ElementKind::Image,
        DslAttribute::NativeView => kind == ElementKind::NativeView,
        DslAttribute::WebDom => kind == ElementKind::WebView || kind == ElementKind::View,
    }
}

/// The check of an attribute on an element: a source span is required
/// first, then the pair must be accepted.
pub open spec fn attribute_check(
    kind: ElementKind,
    attribute: DslAttribute,
    source_span_id: Option<Seq<char>>,
) -> Result<(), DslDiagnosticView> {
    if source_span_id is None {
        Err(
            dsl_error(
                DSL_SOURCE_SPAN_REQUIRED@,
                attribute_path(attribute),
                "attribute "@ + attribute_token(attribute) + " requires a DSL source span"@,
                None,
            ),
        )
    } else if attribute_allowed(kind, attribute) {
        Ok(())
    } else {
        Err(
            dsl_error(
                DSL_ATTRIBUTE_ELEMENT_MISMATCH@,
                attribute_path(attribute),
                "attribute "@ + attribute_token(attribute) + " is not valid for element "@
                    + element_text(kind),
                source_span_id,
            ),
        )
    }
}

fn accepts_attribute(kind: ElementKind, attribute: DslAttribute) -> (r: bool)
    ensures
        r == attribute_allowed(kind, attribute),
{
    match attribute {
        DslAttribute::Layout | DslAttribute::Style | DslAttribute::Accessibility
        | DslAttribute::AccessibilityLabel | DslAttribute::TestIdentifier(_) => true,
        DslAttribute::Text => matches!(kind, ElementKind::Text | ElementKind::RichText),
        DslAttribute::TextInput => matches!(kind, ElementKind::TextInput),
        DslAttribute::Asset => matches!(kind, ElementKind::Image),
        DslAttribute::NativeView => matches!(kind, ElementKind::NativeView),
        DslAttribute::WebDom => matches!(kind, ElementKind::WebView | ElementKind::View),
    }
}

pub fn validate_attribute_for_element(
    kind: ElementKind,
    attribute: DslAttribute,
    source_span_id: Option<SourceSpanId>,
) -> (r: DslResult<()>)
    ensures
        dsl_outcome(r) == attribute_check(kind, attribute, span_text(source_span_id)),
{
    if source_span_id.is_none() {
        let mut message = owned("attribute ");
        message.append(attribute.token());
        message.append(" requires a DSL source span");
        return Err(DslDiagnostic::error(DSL_SOURCE_SPAN_REQUIRED, attribute.path(), message, None));
    }
    if accepts_attribute(kind, attribute) {
        return Ok(());
    }
    let mut message = owned("attribute ");
    message.append(attribute.token());
    message.append(" is not valid for element ");
    message.append(kind.contract_token());
    Err(
        DslDiagnostic::error(
            DSL_ATTRIBUTE_ELEMENT_MISMATCH,
            attribute.path(),
            message,
            source_span_id,
        ),
    )
}

/// Which elements take each attribute, once a source span is given: layout,
/// style, accessibility, accessibility labels and test identifiers on every
/// element; text on text and rich text; text input on text inputs; an asset
/// on images only; a native view on native views; web DOM on web views and
/// views.  Any other pairing is refused with
/// `DSL_ATTRIBUTE_ELEMENT_MISMATCH`; without a span every attribute is
/// refused with `DSL_SOURCE_SPAN_REQUIRED`.
pub proof fn lemma_attribute_element_table(
    kind: ElementKind,
    attribute: DslAttribute,
    source_span_id: Option<Seq<char>>,
)
    ensures
        ({
            let r = attribute_check(kind, attribute, source_span_id);
            &&& source_span_id is None ==> r is Err && r->Err_0.code == DSL_SOURCE_SPAN_REQUIRED@
            &&& source_span_id is Some ==> {
                &&& (attribute is Layout || attribute is Style || attribute is Accessibility
                    || attribute is AccessibilityLabel || attribute is TestIdentifier) ==> r is Ok
                &&& attribute is Text ==> (r is Ok <==> (kind is Text || kind is RichText))
                &&& attribute is TextInput ==> (r is Ok <==> kind is TextInput)
                &&& attribute is Asset ==> (r is Ok <==> kind is Image)
                &&& attribute is NativeView ==> (r is Ok <==> kind is NativeView)
                &&& attribute is WebDom ==> (r is Ok <==> (kind is WebView || kind is View))
                &&& r is Err ==> r->Err_0.code == DSL_ATTRIBUTE_ELEMENT_MISMATCH@
            }
        }),
{
}

/// The schema path of an attribute is its token under `$.nodes[].attributes.`.
pub proof fn lemma_attribute_path_names_token(attribute: DslAttribute)
    ensures
        attribute_path(attribute) == "$.nodes[].attributes."@ + attribute_token(attribute),
{
    reveal_strlit("$.nodes[].attributes.");
    match attribute {
        DslAttribute::Layout => {
            reveal_strlit("$.nodes[].attributes.layout");
            reveal_strlit("layout");
            assert(attribute_path(attribute) =~= "$.nodes[].attributes."@ + attribute_token(attribute));
        },
        DslAttribute::Style => {
            reveal_strlit("$.nodes[].attributes.style");
            reveal_strlit("style");
            assert(attribute_path(attribute) =~= "$.nodes[].attributes."@ + attribute_token(attribute));
        },
        DslAttribute::Text => {
            reveal_strlit("$.nodes[].attributes.text");
            reveal_strlit("text");
            assert(attribute_path(attribute) =~= "$.nodes[].attributes."@ + attribute_token(attribute));
        },
        DslAttribute::TextInput => {
            reveal_strlit("$.nodes[].attributes.text_input");
            reveal_strlit("text_input");
            assert(attribute_path(attribute) =~= "$.nodes[].attributes."@ + attribute_token(attribute));
        },
        DslAttribute::Asset => {
            reveal_strlit("$.nodes[].attributes.asset");
            reveal_strlit("asset");
            assert(attribute_path(attribute) =~= "$.nodes[].attributes."@ + attribute_token(attribute));
        },
        DslAttribute::Accessibility => {
            reveal_strlit("$.nodes[].attributes.accessibility");
            reveal_strlit("accessibility");
            assert(attribute_path(attribute) =~= "$.nodes[].attributes."@ + attribute_token(attribute));
        },
        DslAttribute::AccessibilityLabel => {
            reveal_strlit("$.nodes[].attributes.accessibility_label");
            reveal_strlit("accessibility_label");
            assert(attribute_path(attribute) =~= "$.nodes[].attributes."@ + attribute_token(attribute));
        },
        DslAttribute::NativeView => {
            reveal_strlit("$.nodes[].attributes.native_view");
            reveal_strlit("native_view");
            assert(attribute_path(attribute) =~= "$.nodes[].attributes."@ + attribute_token(attribute));
        },
        DslAttribute::WebDom => {
            reveal_strlit("$.nodes[].attributes.web_dom");
            reveal_strlit("web_dom");
            assert(attribute_path(attribute) =~= "$.nodes[].attributes."@ + attribute_token(attribute));
        },
        DslAttribute::TestIdentifier(_) => {
            reveal_strlit("$.nodes[].attributes.test_identifier");
            reveal_strlit("test_identifier");
            assert(attribute_path(attribute) =~= "$.nodes[].attributes."@ + attribute_token(attribute));
        },
    }
}

/// The texts of the required attribute tokens.
pub open spec fn required_attribute_tokens() -> Seq<Seq<char>> {
    REQUIRED_ATTRIBUTE_TOKENS@.map_values(|t: &'static str| t@)
}

/// Every attribute's token is one of the required attribute tokens.
pub proof fn lemma_attribute_token_is_required(attribute: DslAttribute)
    ensures
        required_attribute_tokens().contains(attribute_token(attribute)),
{
    let tokens = required_attribute_tokens();
    match attribute {
        DslAttribute::Layout => {
            assert(tokens[0] == attribute_token(attribute));
        },
        DslAttribute::Style => {
            assert(tokens[1] == attribute_token(attribute));
        },
        DslAttribute::Text => {
            assert(tokens[2] == attribute_token(attribute));
        },
        DslAttribute::TextInput => {
            assert(tokens[3] == attribute_token(attribute));
        },
        DslAttribute::Asset => {
            assert(tokens[4] == attribute_token(attribute));
        },
        DslAttribute::Accessibility => {
            assert(tokens[5] == attribute_token(attribute));
        },
        DslAttribute::AccessibilityLabel => {
            assert(tokens[6] == attribute_token(attribute));
        },
        DslAttribute::NativeView => {
            assert(tokens[7] == attribute_token(attribute));
        },
        DslAttribute::WebDom => {
            assert(tokens[8] == attribute_token(attribute));
        },
        DslAttribute::TestIdentifier(_) => {
            assert(tokens[9] == attribute_token(attribute));
        },
    }
}

} // verus!
