use valdi_rust::backend::capabilities::{
    fixture_tag_backend_decisions, BackendCapability, BackendCapabilityDecision,
    BackendCapabilitySet, BackendTarget,
};
use valdi_rust::backend::diagnostics::BackendDiagnosticSeverity;
use valdi_rust::backend::mock::{
    mock_backend_snapshot, sample_backend_operations, MockBackend, RenderBackend,
};
use valdi_rust::backend::operations::{
    AnimationLifecycle, BackendOperation, BackendOperationFamily, TransactionPhase,
    REQUIRED_OPERATION_FAMILIES,
};
use valdi_rust::backend::validator::{
    validate_fixture_tag_decisions, validate_operation_capabilities,
    validate_required_operation_families, BACKEND_FIXTURE_TAG_MAPPING_DUPLICATE,
    BACKEND_FIXTURE_TAG_MAPPING_EMPTY, BACKEND_FIXTURE_TAG_MAPPING_EXTRA,
};

const DECIDED_TAGS: [&str; 13] = [
    "android",
    "dom_snapshot",
    "dynamic_ui",
    "hot_reload",
    "ios",
    "module",
    "native_view",
    "retained_backend",
    "rust_backend",
    "screenshot",
    "static_png",
    "tsx_compat",
    "web",
];

fn apply_all<B: RenderBackend>(backend: &mut B) {
    assert_eq!(
        backend.negotiate(BackendCapability::ViewTree),
        BackendCapabilityDecision::Supported(BackendCapability::ViewTree)
    );
    for operation in sample_backend_operations() {
        backend.apply(operation).expect("operation applies");
    }
}

#[test]
fn render_backend_trait_compiles_for_configured_targets() {
    for target in [
        BackendTarget::RustHost,
        BackendTarget::Ios,
        BackendTarget::Android,
        BackendTarget::Png,
        BackendTarget::WebDom,
    ] {
        let capabilities = BackendCapabilitySet::all_for(target);
        let mut backend = MockBackend::new(capabilities);
        assert_eq!(backend.target(), target);
        apply_all(&mut backend);
        assert_eq!(backend.operations().len(), sample_backend_operations().len());
    }
}

#[test]
fn validator_rejects_unsupported_capability_with_exact_diagnostic() {
    let capabilities = BackendCapabilitySet::new(
        BackendTarget::RustHost,
        &[BackendCapability::ViewTree, BackendCapability::AttributesAndStyle],
    );
    let operation = sample_backend_operations()
        .into_iter()
        .find(|operation| operation.family().as_str() == "text_measure")
        .expect("sample has text measure");

    let diagnostic = validate_operation_capabilities(&operation, capabilities)
        .expect_err("text measurement capability is absent");

    assert_eq!(diagnostic.code, "BACKEND_CAPABILITY_UNSUPPORTED");
    assert_eq!(diagnostic.path, "$.operations[].text_measure");
    assert_eq!(diagnostic.severity, BackendDiagnosticSeverity::Error);
    assert_eq!(diagnostic.message, "text_measure requires text_measurement on rust_host");
}

#[test]
fn backend_operation_families_cover_the_required_contract() {
    let operations = sample_backend_operations();
    validate_required_operation_families(&operations)
        .expect("sample operations cover all families");
}

#[test]
fn operation_family_and_fixture_tag_drift_fail() {
    let operations = sample_backend_operations();
    let missing_create = validate_required_operation_families(&operations[1..])
        .expect_err("removing an operation family must fail");
    assert_eq!(missing_create.code, "BACKEND_OPERATION_FAMILY_MISSING");
    assert_eq!(missing_create.path, "$.operations[].create");
    assert_eq!(missing_create.severity.as_str(), "error");

    let decisions = fixture_tag_backend_decisions();
    let missing_tag = validate_fixture_tag_decisions(&DECIDED_TAGS, &decisions[1..])
        .expect_err("removing a fixture tag decision must fail");
    assert_eq!(missing_tag.code, "BACKEND_FIXTURE_TAG_MAPPING_MISSING");
    assert_eq!(missing_tag.path, "$.fixture_tag_backend_decisions[].fixture_tag");
    assert_eq!(missing_tag.severity.as_str(), "error");
}

#[test]
fn decisions_for_exactly_the_required_tags_are_accepted() {
    let decisions = fixture_tag_backend_decisions();
    assert_eq!(decisions.len(), DECIDED_TAGS.len());
    assert_eq!(validate_fixture_tag_decisions(&DECIDED_TAGS, &decisions), Ok(()));

    let extra = validate_fixture_tag_decisions(&DECIDED_TAGS[1..], &decisions)
        .expect_err("a decision for a tag that is not required must fail");
    assert_eq!(extra.code, BACKEND_FIXTURE_TAG_MAPPING_EXTRA);

    let mut doubled = decisions.clone();
    doubled.push(decisions[0].clone());
    let duplicate = validate_fixture_tag_decisions(&DECIDED_TAGS, &doubled)
        .expect_err("a tag decided twice must fail");
    assert_eq!(duplicate.code, BACKEND_FIXTURE_TAG_MAPPING_DUPLICATE);

    let mut emptied = decisions.clone();
    emptied[2].operation_families = &[];
    let empty = validate_fixture_tag_decisions(&DECIDED_TAGS, &emptied)
        .expect_err("a decision without families must fail");
    assert_eq!(empty.code, BACKEND_FIXTURE_TAG_MAPPING_EMPTY);
}

#[test]
fn full_capability_sets_accept_every_operation_and_partial_ones_record_only_accepted() {
    let mut backend = MockBackend::new(BackendCapabilitySet::new(
        BackendTarget::Png,
        &[BackendCapability::ViewTree],
    ));
    assert_eq!(backend.apply(BackendOperation::Create), Ok(()));
    let refused = backend
        .apply(BackendOperation::Animation(AnimationLifecycle::Start))
        .expect_err("animations are not declared");
    assert_eq!(refused.message, "animation_start requires animations on png");
    assert_eq!(backend.apply(BackendOperation::Root), Ok(()));
    assert_eq!(
        backend.operations(),
        &[BackendOperation::Create, BackendOperation::Root][..]
    );
    assert_eq!(
        backend.negotiate(BackendCapability::Animations),
        BackendCapabilityDecision::Unsupported(BackendCapability::Animations)
    );

    let full = BackendCapabilitySet::all_for(BackendTarget::Ios);
    for operation in [
        BackendOperation::TransactionGroup(TransactionPhase::Begin),
        BackendOperation::TransactionGroup(TransactionPhase::Cancel),
        BackendOperation::Destroy,
    ] {
        assert_eq!(validate_operation_capabilities(&operation, full), Ok(()));
    }
}

#[test]
fn operation_families_name_their_paths_and_capabilities() {
    assert_eq!(REQUIRED_OPERATION_FAMILIES.len(), 17);
    assert_eq!(BackendOperationFamily::WebViewMount.as_str(), "webview_mount");
    assert_eq!(
        BackendOperationFamily::AttributeStyle.diagnostic_path(),
        "$.operations[].attribute_style"
    );
    assert_eq!(
        BackendOperationFamily::FrameObserver.required_capability(),
        BackendCapability::FrameObservers
    );
}

#[test]
fn mock_snapshot_lists_operations_then_decisions() {
    let snapshot = mock_backend_snapshot();
    assert!(snapshot.starts_with("backend_operation_snapshot_v1\noperations:\n- family=create capability=view_tree\n"));
    assert!(snapshot.contains("\nfixture_tag_decisions:\n"));
    assert!(snapshot.ends_with("\n"));
    assert_eq!(snapshot.lines().count(), 2 + 17 + 1 + 13);
}

#[test]
fn every_capability_set_lists_each_capability_once_in_order() {
    let set = BackendCapabilitySet::all_for(BackendTarget::WebDom);
    assert_eq!(set.target, BackendTarget::WebDom);
    assert_eq!(set.capabilities, &valdi_rust::backend::capabilities::ALL_CAPABILITIES[..]);
    assert_eq!(set.capabilities.len(), 12);
    assert_eq!(set.capabilities[0], BackendCapability::ViewTree);
}
