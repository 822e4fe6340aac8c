use valdi_rust::dsl::attributes::{
    validate_attribute_for_element, DslAttribute, REQUIRED_ATTRIBUTE_TOKENS,
};
use valdi_rust::dsl::diagnostics::{
    DslDiagnostic, DSL_ATTRIBUTE_ELEMENT_MISMATCH, DSL_CANONICAL_IR_DRIFT,
    DSL_CONTRACT_ROW_UNSUPPORTED, DSL_EVENT_ELEMENT_MISMATCH, DSL_FIXTURE_INPUT_INVALID,
    DSL_SOURCE_SPAN_REQUIRED,
};
use valdi_rust::dsl::elements::{self, ElementKind};
use valdi_rust::dsl::events::{
    event_token, validate_event_for_element, CustomNativeEventSpec, EventBinding, EventKind,
    REQUIRED_EVENT_TOKENS,
};
use valdi_rust::dsl::fixtures::{
    canonical_snapshot, contract_fixture, payload_for_contract_row, validate_canonical_snapshot,
    DslFixtureInput, REQUIRED_CONTRACT_ROW_IDS,
};
use valdi_rust::dsl::ids::{ActionId, NodeId, StateId};
use valdi_rust::dsl::source::source_span;
use valdi_rust::dsl::tree::{
    component_id, root_node_id, DslSurfacePayload, RustPathDependencyCheck, REQUIRED_ELEMENT_KINDS,
};
use valdi_rust::dsl::{crate_id, CRATE_ID, PUBLIC_API_BOUNDARY};

/// Every text that the DSL's public surface names or emits for a sample of
/// valid and invalid uses.
fn dsl_public_texts() -> Vec<String> {
    let mut texts = vec![
        CRATE_ID.to_string(),
        crate_id().to_string(),
        PUBLIC_API_BOUNDARY.to_string(),
    ];
    texts.extend(REQUIRED_ATTRIBUTE_TOKENS.iter().map(|t| t.to_string()));
    texts.extend(REQUIRED_EVENT_TOKENS.iter().map(|t| t.to_string()));
    texts.extend(REQUIRED_CONTRACT_ROW_IDS.iter().map(|t| t.to_string()));
    for kind in REQUIRED_ELEMENT_KINDS {
        texts.push(kind.contract_token().to_string());
    }
    for row in REQUIRED_CONTRACT_ROW_IDS {
        let payload = payload_for_contract_row(row).expect("required row has a payload");
        texts.push(payload.kind_token().to_string());
        texts.push(root_node_id(row));
        texts.push(component_id(row));
    }
    let span = source_span("dsl.scan:1:1", "scan.rs", 1, 1);
    for kind in REQUIRED_ELEMENT_KINDS {
        for attribute in all_attributes() {
            texts.push(attribute.path().to_string());
            texts.push(attribute.token().to_string());
            for span_id in [Some(span.id), None] {
                if let Err(d) = validate_attribute_for_element(kind, attribute, span_id) {
                    texts.push(d.message);
                }
            }
        }
        for event in all_events() {
            let binding = EventBinding {
                node_id: NodeId::new("node.scan"),
                kind: event,
                action_id: ActionId::new("action.scan"),
            };
            for span_id in [Some(span.id), None] {
                if let Err(d) = validate_event_for_element(kind, binding, span_id) {
                    texts.push(d.message);
                }
            }
        }
    }
    texts
}

fn all_attributes() -> [DslAttribute; 10] {
    [
        DslAttribute::Layout,
        DslAttribute::Style,
        DslAttribute::Text,
        DslAttribute::TextInput,
        DslAttribute::Asset,
        DslAttribute::Accessibility,
        DslAttribute::AccessibilityLabel,
        DslAttribute::NativeView,
        DslAttribute::WebDom,
        DslAttribute::TestIdentifier("scan.id"),
    ]
}

fn all_events() -> [EventKind; 14] {
    [
        EventKind::Tap,
        EventKind::Press,
        EventKind::LongPress,
        EventKind::Pan,
        EventKind::Scroll,
        EventKind::Focus,
        EventKind::Blur,
        EventKind::Input,
        EventKind::KeyboardSubmit,
        EventKind::Layout,
        EventKind::Draw,
        EventKind::Visibility,
        EventKind::FrameObserver,
        EventKind::CustomNative(CustomNativeEventSpec { event_name: "scan.ready" }),
    ]
}

#[test]
fn dsl_source_excludes_forbidden_renderer_and_compiler_terms() {
    let forbidden_terms = [
        "cxx::",
        "bindgen",
        "cbindgen",
        "libc::",
        "RenderRequest",
        "ViewNodeRenderer",
        "ViewNodeTree",
        "JS direct renderer",
        "TypeScript compiler/runtime",
        "TSN C emitter/runtime",
    ];

    for source in dsl_public_texts() {
        for term in forbidden_terms {
            assert!(
                !source.contains(term),
                "DSL source exposes forbidden dependency term {term}"
            );
        }
    }
}

fn input(
    fixture_id: &str,
    contract_row_id: &str,
    surface: &str,
    serialized_artifact_path: &str,
    coverage_token: &str,
) -> DslFixtureInput {
    DslFixtureInput {
        fixture_id: fixture_id.to_string(),
        contract_row_id: contract_row_id.to_string(),
        surface: surface.to_string(),
        fixture_tags: vec!["rust_backend".to_string()],
        platform_targets: vec!["rust_host".to_string()],
        owner_prs: vec!["PR09".to_string()],
        proof_prs: vec!["PR09".to_string()],
        serialized_artifact_path: serialized_artifact_path.to_string(),
        coverage_tokens: vec![coverage_token.to_string()],
    }
}

fn row_input(row: &str) -> DslFixtureInput {
    input(
        &format!("contract.{row}.v1"),
        row,
        &format!("Surface {row}"),
        &format!("valdi_rust/fixtures/serialized/{row}.ir.json"),
        &format!("{row}.token"),
    )
}

#[test]
fn invalid_attribute_element_pair_returns_exact_diagnostic() {
    let source = source_span("dsl.invalid:1:1", "invalid.rs", 1, 1);
    let diagnostic =
        validate_attribute_for_element(ElementKind::Image, DslAttribute::Text, Some(source.id))
            .expect_err("text attribute on image must fail");

    assert_eq!(diagnostic.code, DSL_ATTRIBUTE_ELEMENT_MISMATCH);
    assert_eq!(diagnostic.path, "$.nodes[].attributes.text");
    assert_eq!(diagnostic.severity.as_str(), "error");
    assert_eq!(diagnostic.source_span_id, Some(source.id));
}

#[test]
fn invalid_event_element_pair_returns_exact_diagnostic() {
    let source = source_span("dsl.invalid:2:1", "invalid.rs", 2, 1);
    let binding = EventBinding {
        node_id: NodeId::new("node.invalid.root"),
        kind: EventKind::Input,
        action_id: ActionId::new("action.invalid.input"),
    };
    let diagnostic = validate_event_for_element(ElementKind::View, binding, Some(source.id))
        .expect_err("input event on view must fail");

    assert_eq!(diagnostic.code, DSL_EVENT_ELEMENT_MISMATCH);
    assert_eq!(diagnostic.path, "$.nodes[].events[]");
    assert_eq!(diagnostic.severity.as_str(), "error");
    assert_eq!(diagnostic.source_span_id, Some(source.id));
}

#[test]
fn missing_source_span_returns_exact_diagnostic() {
    let diagnostic = validate_attribute_for_element(ElementKind::Text, DslAttribute::Text, None)
        .expect_err("missing source span must fail");

    assert_eq!(diagnostic.code, DSL_SOURCE_SPAN_REQUIRED);
    assert_eq!(diagnostic.path, "$.nodes[].attributes.text");
    assert_eq!(diagnostic.severity.as_str(), "error");
    assert_eq!(diagnostic.source_span_id, None);
}

#[test]
fn unsupported_contract_row_returns_exact_diagnostic() {
    let diagnostic = contract_fixture(input(
        "contract.unsupported.v1",
        "unsupported",
        "Unsupported",
        "valdi_rust/fixtures/serialized/unsupported.ir.json",
        "unsupported",
    ))
    .expect_err("unknown row must fail");

    assert_eq!(diagnostic.code, DSL_CONTRACT_ROW_UNSUPPORTED);
    assert_eq!(diagnostic.path, "$.contract_row_id");
    assert_eq!(diagnostic.severity.as_str(), "error");
}

#[test]
fn missing_fixture_input_returns_exact_diagnostic() {
    let diagnostic = contract_fixture(input(
        "",
        "schema_versioning",
        "Schema and versioning",
        "valdi_rust/fixtures/serialized/schema_versioning.ir.json",
        "schema.version",
    ))
    .expect_err("empty fixture ID must fail");

    assert_eq!(diagnostic.code, DSL_FIXTURE_INPUT_INVALID);
    assert_eq!(diagnostic.path, "$.fixture_id");
    assert_eq!(diagnostic.severity.as_str(), "error");
}

#[test]
fn serialized_fixture_path_drift_returns_exact_diagnostic() {
    let diagnostic = contract_fixture(input(
        "contract.schema_versioning.v1",
        "schema_versioning",
        "Schema and versioning",
        "valdi_rust/fixtures/serialized/wrong.ir.json",
        "schema.version",
    ))
    .expect_err("serialized path drift must fail");

    assert_eq!(diagnostic.code, DSL_FIXTURE_INPUT_INVALID);
    assert_eq!(diagnostic.path, "$.metadata.serialized_artifact_path");
    assert_eq!(diagnostic.severity.as_str(), "error");
}

#[test]
fn canonical_snapshot_drift_is_exactly_diagnosed() {
    let inputs: Vec<DslFixtureInput> =
        REQUIRED_CONTRACT_ROW_IDS.iter().map(|row| row_input(row)).collect();
    let expected = canonical_snapshot(inputs.clone()).expect("snapshot renders");
    let drifted = expected
        .lines()
        .filter(|line| !line.contains("bindings_expressions|"))
        .collect::<Vec<_>>()
        .join("\n")
        + "\n";
    let diagnostic =
        validate_canonical_snapshot(inputs, &drifted).expect_err("removed row must fail");

    assert_eq!(diagnostic.code, DSL_CANONICAL_IR_DRIFT);
    assert_eq!(diagnostic.path, "$.dsl_canonical_ir");
    assert_eq!(diagnostic.severity.as_str(), "error");
}

#[test]
fn rust_app_developer_dsl_sample_compiles_without_compatibility_renderer_dependencies(
) -> Result<(), DslDiagnostic> {
    let root_span = source_span("app:1:1", "app.rs", 1, 1);
    let title_span = source_span("app:2:5", "app.rs", 2, 5);
    let image_span = source_span("app:3:5", "app.rs", 3, 5);
    let input_span = source_span("app:4:5", "app.rs", 4, 5);
    let native_span = source_span("app:5:5", "app.rs", 5, 5);

    let action_id = ActionId::new("action.save");
    let root = elements::view(NodeId::new("node.root"), root_span)
        .state(StateId::new("state.form"))
        .attr(DslAttribute::Style)?
        .on(EventKind::Tap, action_id)?
        .build();
    let title = elements::text(NodeId::new("node.title"), title_span)
        .attr(DslAttribute::Text)?
        .attr(DslAttribute::Accessibility)?
        .build();
    let image = elements::image(NodeId::new("node.logo"), image_span)
        .attr(DslAttribute::Asset)?
        .build();
    let input = elements::text_input(NodeId::new("node.name_input"), input_span)
        .attr(DslAttribute::TextInput)?
        .on(EventKind::Input, ActionId::new("action.name_changed"))?
        .build();
    let native = elements::native_view(NodeId::new("node.camera"), native_span)
        .attr(DslAttribute::NativeView)?
        .on(
            EventKind::CustomNative(CustomNativeEventSpec { event_name: "camera.ready" }),
            ActionId::new("action.camera_ready"),
        )?
        .build();

    assert_eq!(root.events.len(), 1);
    assert_eq!(root.node.state_id, Some(StateId::new("state.form")));
    assert_eq!(title.attributes.len(), 2);
    assert_eq!(image.attributes.len(), 1);
    assert_eq!(input.events[0].kind, EventKind::Input);
    assert_eq!(native.events[0].action_id.as_str(), "action.camera_ready");
    assert_eq!(native.events[0].node_id.as_str(), "node.camera");
    assert_eq!(title_span.token(), "app.rs:2:5");

    match payload_for_contract_row("dynamic_ui").expect("dynamic UI payload exists") {
        DslSurfacePayload::DynamicUi(surface) => assert_eq!(surface.producer.name, "rust_dsl_home"),
        other => panic!("unexpected payload: {other:?}"),
    }

    Ok(())
}

#[test]
fn every_required_element_kind_has_a_named_app_facing_builder() {
    for kind in REQUIRED_ELEMENT_KINDS {
        let node = match kind {
            ElementKind::View => elements::view(
                NodeId::new("node.builder.view"),
                source_span("builder:view", "app.rs", 1, 1),
            )
            .build(),
            ElementKind::Layout => elements::layout(
                NodeId::new("node.builder.layout"),
                source_span("builder:layout", "app.rs", 2, 1),
            )
            .build(),
            ElementKind::Scroll => elements::scroll(
                NodeId::new("node.builder.scroll"),
                source_span("builder:scroll", "app.rs", 3, 1),
            )
            .build(),
            ElementKind::Image => elements::image(
                NodeId::new("node.builder.image"),
                source_span("builder:image", "app.rs", 4, 1),
            )
            .build(),
            ElementKind::Text => elements::text(
                NodeId::new("node.builder.text"),
                source_span("builder:text", "app.rs", 5, 1),
            )
            .build(),
            ElementKind::RichText => elements::rich_text(
                NodeId::new("node.builder.rich_text"),
                source_span("builder:rich_text", "app.rs", 6, 1),
            )
            .build(),
            ElementKind::TextInput => elements::text_input(
                NodeId::new("node.builder.text_input"),
                source_span("builder:text_input", "app.rs", 7, 1),
            )
            .build(),
            ElementKind::Control => elements::control(
                NodeId::new("node.builder.control"),
                source_span("builder:control", "app.rs", 8, 1),
            )
            .build(),
            ElementKind::List => elements::list(
                NodeId::new("node.builder.list"),
                source_span("builder:list", "app.rs", 9, 1),
            )
            .build(),
            ElementKind::WebView => elements::webview(
                NodeId::new("node.builder.webview"),
                source_span("builder:webview", "app.rs", 10, 1),
            )
            .build(),
            ElementKind::NativeView => elements::native_view(
                NodeId::new("node.builder.native_view"),
                source_span("builder:native_view", "app.rs", 11, 1),
            )
            .build(),
            ElementKind::DrawingHost => elements::drawing_host(
                NodeId::new("node.builder.drawing_host"),
                source_span("builder:drawing_host", "app.rs", 12, 1),
            )
            .build(),
        };
        assert_eq!(node.node.kind, kind);
    }
}

#[test]
fn rejected_attribute_leaves_no_trace_in_the_built_node() {
    let span = source_span("app:7:1", "app.rs", 7, 1);
    let diagnostic = elements::image(NodeId::new("node.logo"), span)
        .attr(DslAttribute::Text)
        .expect_err("text on image is refused");
    assert_eq!(diagnostic.code, DSL_ATTRIBUTE_ELEMENT_MISMATCH);
    assert_eq!(diagnostic.message, "attribute text is not valid for element image");
    assert_eq!(diagnostic.source_span_id, Some(span.id));

    let built = elements::scroll(NodeId::new("node.list"), span)
        .on(EventKind::Scroll, ActionId::new("action.scrolled"))
        .expect("scroll on scroll")
        .build();
    assert_eq!(built.events.len(), 1);
    assert_eq!(built.attributes.len(), 0);
}

#[test]
fn universal_attributes_suit_every_element_kind() {
    let span = source_span("app:8:1", "app.rs", 8, 1);
    for kind in REQUIRED_ELEMENT_KINDS {
        for attribute in [
            DslAttribute::Layout,
            DslAttribute::Style,
            DslAttribute::Accessibility,
            DslAttribute::AccessibilityLabel,
            DslAttribute::TestIdentifier("test.id"),
        ] {
            assert!(validate_attribute_for_element(kind, attribute, Some(span.id)).is_ok());
        }
        for event in [EventKind::Layout, EventKind::Visibility, EventKind::FrameObserver] {
            let binding = EventBinding {
                node_id: NodeId::new("node.any"),
                kind: event,
                action_id: ActionId::new("action.any"),
            };
            assert_eq!(validate_event_for_element(kind, binding, Some(span.id)), Ok(binding));
        }
    }
}

#[test]
fn missing_event_span_names_the_event() {
    let binding = EventBinding {
        node_id: NodeId::new("node.draw"),
        kind: EventKind::Draw,
        action_id: ActionId::new("action.draw"),
    };
    let diagnostic = validate_event_for_element(ElementKind::DrawingHost, binding, None)
        .expect_err("missing span must fail");
    assert_eq!(diagnostic.code, DSL_SOURCE_SPAN_REQUIRED);
    assert_eq!(diagnostic.message, "event draw requires a DSL source span");
    assert_eq!(event_token(EventKind::KeyboardSubmit), "keyboard_submit");
}

#[test]
fn every_required_row_builds_a_document_covering_that_row() {
    for row in REQUIRED_CONTRACT_ROW_IDS {
        let document = contract_fixture(row_input(row)).expect("required row builds");
        assert_eq!(document.payload.kind_token(), row);
        assert_eq!(document.root_node_id, format!("node.{row}.root"));
        assert_eq!(document.component_id, format!("component.{row}"));
        assert_eq!(document.source_span, None);
        let debug = document.canonical_debug();
        assert_eq!(debug.contract_surface, row);
        assert_eq!(debug.coverage_tokens, vec![format!("{row}.token")]);
    }
}

#[test]
fn canonical_snapshot_lists_every_document_and_validates_itself() {
    let inputs = vec![row_input("layout"), row_input("text")];
    let snapshot = canonical_snapshot(inputs.clone()).expect("snapshot renders");
    assert_eq!(
        snapshot,
        "dsl_canonical_ir_v1\n\
         layout|contract.layout.v1|node.layout.root|component.layout|layout|layout.token\n\
         text|contract.text.v1|node.text.root|component.text|text|text.token\n"
    );
    assert_eq!(validate_canonical_snapshot(inputs, &snapshot), Ok(()));
    assert_eq!(canonical_snapshot(Vec::new()), Ok("dsl_canonical_ir_v1\n".to_string()));
}

#[test]
fn snapshot_reports_the_first_failing_input() {
    let mut bad = row_input("styling");
    bad.coverage_tokens.clear();
    let inputs = vec![row_input("layout"), bad, row_input("unknown_row")];
    let diagnostic = canonical_snapshot(inputs).expect_err("empty coverage fails");
    assert_eq!(diagnostic.code, DSL_FIXTURE_INPUT_INVALID);
    assert_eq!(diagnostic.path, "$.ir_debug.coverage_tokens");
    assert_eq!(diagnostic.message, "coverage tokens are required");
}

#[test]
fn fixture_input_checks_report_each_field() {
    let mut blank_surface = row_input("assets");
    blank_surface.surface = "  \t".to_string();
    let d = contract_fixture(blank_surface).expect_err("blank surface");
    assert_eq!((d.path, d.message.as_str()), ("$.surface", "surface is required"));

    let mut no_tags = row_input("assets");
    no_tags.fixture_tags.clear();
    let d = contract_fixture(no_tags).expect_err("no tags");
    assert_eq!((d.path, d.message.as_str()), ("$.fixture_tags", "fixture tags are required"));

    let mut no_owners = row_input("assets");
    no_owners.owner_prs.clear();
    let d = contract_fixture(no_owners).expect_err("no owners");
    assert_eq!(d.path, "$.metadata.owner_prs");

    let mut id_drift = row_input("assets");
    id_drift.fixture_id = "contract.assets.v2".to_string();
    let d = contract_fixture(id_drift).expect_err("id drift");
    assert_eq!(d.path, "$.fixture_id");
    assert_eq!(
        d.message,
        "fixture ID drift: \"contract.assets.v2\" != \"contract.assets.v1\""
    );

    let d = contract_fixture(row_input("not_a_row")).expect_err("unknown row");
    assert_eq!(d.message, "unsupported contract row not_a_row");
}

#[test]
fn every_attribute_event_and_element_is_among_the_required_ones() {
    for attribute in all_attributes() {
        assert!(REQUIRED_ATTRIBUTE_TOKENS.contains(&attribute.token()));
    }
    for event in all_events() {
        assert!(REQUIRED_EVENT_TOKENS.contains(&event_token(event)));
    }
    assert_eq!(REQUIRED_ELEMENT_KINDS.len(), 12);
    assert_eq!(REQUIRED_CONTRACT_ROW_IDS.len(), 22);
    assert_eq!(ElementKind::DrawingHost.contract_token(), "drawing_host");
}

#[test]
fn ts_compatibility_metadata_remains_a_dependency_exclusion_check() {
    let payload = payload_for_contract_row("ts_compatibility").expect("TS compatibility payload");
    let DslSurfacePayload::TsCompatibility(surface) = payload else {
        panic!("unexpected payload");
    };

    assert_eq!(
        surface.dependency_check,
        RustPathDependencyCheck { excludes_typescript_runtime: true }
    );
}

#[test]
fn events_and_tree_structure_payloads_declare_their_sample_values() {
    let DslSurfacePayload::EventsGestures(events) =
        payload_for_contract_row("events_gestures").expect("events payload")
    else {
        panic!("unexpected payload");
    };
    assert_eq!(events.bindings.len(), 14);
    let tokens: Vec<&str> = events.bindings.iter().map(|b| event_token(b.kind)).collect();
    assert_eq!(tokens, REQUIRED_EVENT_TOKENS.to_vec());
    assert!(events.bindings.iter().all(|b| b.action_id.as_str() == "action.events_gestures.tap"));
    assert_eq!(events.bindings[4].node_id.as_str(), "node.events_gestures.scroll");
    assert_eq!(events.input.value, "Ada");
    assert_eq!(events.keyboard.value, "Ada");
    assert_eq!(events.draw.frame_number, 1);
    assert!(events.visibility.visible);
    assert_eq!(events.frame.frame_number, 2);

    let DslSurfacePayload::TreeStructure(tree) =
        payload_for_contract_row("tree_structure").expect("tree payload")
    else {
        panic!("unexpected payload");
    };
    assert_eq!(tree.document.root.node_id.as_str(), "node.tree_structure.root");
    assert_eq!(tree.document.component_id.id, "component.tree_structure");
    assert_eq!(tree.nodes[0].kind, ElementKind::View);
    assert_eq!(tree.nodes[0].state_id, Some(StateId::new("state.tree_structure.context")));
    assert_eq!(tree.nodes[1].kind, ElementKind::Text);
    assert_eq!(tree.children[0].child_id.as_str(), "node.tree_structure.child");
    assert_eq!(tree.children[0].key.map(|k| k.id), Some("key.tree_structure.child"));
    assert_eq!(tree.slot.slot_name, "leading");
    assert_eq!(tree.portal.target, "overlay");
    assert_eq!(tree.context.node_id, tree.document.root.node_id);
}
