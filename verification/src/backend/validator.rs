//! Checks of backend operations against capabilities and of fixture tag
//! decisions against the corpus tags.

use vstd::prelude::*;

use crate::backend::capabilities::{
    capability_text, target_text, BackendCapability, BackendCapabilitySet, FixtureTagBackendDecision,
};
use crate::backend::diagnostics::{
    backend_error, backend_outcome, BackendDiagnostic, BackendDiagnosticSeverity,
    BackendDiagnosticView, BackendResult,
};
use crate::backend::operations::{
    family_capability, family_path, family_text, operation_family, AnimationLifecycle,
    BackendOperation, BackendOperationFamily, REQUIRED_OPERATION_FAMILIES,
};
use crate::text::{owned, same_text};

verus! {

pub const BACKEND_CAPABILITY_UNSUPPORTED: &'static str = "BACKEND_CAPABILITY_UNSUPPORTED";

pub const BACKEND_OPERATION_FAMILY_MISSING: &'static str = "BACKEND_OPERATION_FAMILY_MISSING";

pub const BACKEND_FIXTURE_TAG_MAPPING_MISSING: &'static str = "BACKEND_FIXTURE_TAG_MAPPING_MISSING";

pub const BACKEND_FIXTURE_TAG_MAPPING_EXTRA: &'static str = "BACKEND_FIXTURE_TAG_MAPPING_EXTRA";

pub const BACKEND_FIXTURE_TAG_MAPPING_EMPTY: &'static str = "BACKEND_FIXTURE_TAG_MAPPING_EMPTY";

pub const BACKEND_FIXTURE_TAG_MAPPING_DUPLICATE: &'static str =
    "BACKEND_FIXTURE_TAG_MAPPING_DUPLICATE";

/// The check that a backend with `capabilities` can apply `operation`.
pub open spec fn operation_capability_check(
    operation: BackendOperation,
    capabilities: BackendCapabilitySet,
) -> Result<(), BackendDiagnosticView> {
    let family = operation_family(operation);
    let required = family_capability(family);
    if capabilities.capabilities@.contains(required) {
        Ok(())
    } else {
        Err(
            backend_error(
                BACKEND_CAPABILITY_UNSUPPORTED@,
                family_path(family),
                family_text(family) + " requires "@ + capability_text(required) + " on "@
                    + target_text(capabilities.target),
            ),
        )
    }
}

/// Checks that a backend with `capabilities` can apply `operation`: it must
/// hold the capability that the operation's family requires.
pub fn validate_operation_capabilities(
    operation: &BackendOperation,
    capabilities: BackendCapabilitySet,
) -> (r: BackendResult<()>)
    ensures
        backend_outcome(r) == operation_capability_check(*operation, capabilities),
{
    let family = operation.family();
    let required = family.required_capability();
    if capabilities.supports(required) {
        return Ok(());
    }
    let mut message = owned(family.as_str());
    message.append(" requires ");
    message.append(required.as_str());
    message.append(" on ");
    message.append(capabilities.target.as_str());
    Err(BackendDiagnostic::error(BACKEND_CAPABILITY_UNSUPPORTED, family.diagnostic_path(), message))
}

/// A backend that holds every capability can apply every operation.
pub proof fn lemma_full_capabilities_accept_every_operation(
    operation: BackendOperation,
    capabilities: BackendCapabilitySet,
)
    requires
        forall|c: BackendCapability| capabilities.capabilities@.contains(c),
    ensures
        operation_capability_check(operation, capabilities) == Ok::<(), BackendDiagnosticView>(()),
{
    assert(capabilities.capabilities@.contains(family_capability(operation_family(operation))));
}

/// The capability a backend needs for each operation: the view tree to
/// create, destroy, root and move nodes; attributes and style for style
/// changes; animations for every animation lifecycle; the matching callback
/// or observer capability for layout, draw, visibility and frame events;
/// asset loading, text measurement, native and web view mounting, and
/// transaction groups for their operations.  A backend applies an operation
/// exactly when it holds that capability, and refuses it with
/// `BACKEND_CAPABILITY_UNSUPPORTED` otherwise.
pub proof fn lemma_operation_capability_table(
    operation: BackendOperation,
    capabilities: BackendCapabilitySet,
)
    ensures
        ({
            let ok = operation_capability_check(operation, capabilities) is Ok;
            let holds = |c: BackendCapability| capabilities.capabilities@.contains(c);
            &&& (operation is Create || operation is Destroy || operation is Root || operation is Move)
                ==> (ok <==> holds(BackendCapability::ViewTree))
            &&& operation is AttributeStyle ==> (ok <==> holds(BackendCapability::AttributesAndStyle))
            &&& operation is Animation ==> (ok <==> holds(BackendCapability::Animations))
            &&& operation is LayoutCallback ==> (ok <==> holds(BackendCapability::LayoutCallbacks))
            &&& operation is DrawCallback ==> (ok <==> holds(BackendCapability::DrawCallbacks))
            &&& operation is VisibilityObserver ==> (ok <==> holds(
                BackendCapability::VisibilityObservers,
            ))
            &&& operation is FrameObserver ==> (ok <==> holds(BackendCapability::FrameObservers))
            &&& operation is AssetLoad ==> (ok <==> holds(BackendCapability::AssetLoading))
            &&& operation is TextMeasure ==> (ok <==> holds(BackendCapability::TextMeasurement))
            &&& operation is NativeViewMount ==> (ok <==> holds(BackendCapability::NativeViewMount))
            &&& operation is WebViewMount ==> (ok <==> holds(BackendCapability::WebViewMount))
            &&& operation is TransactionGroup ==> (ok <==> holds(BackendCapability::TransactionGroups))
            &&& !ok ==> operation_capability_check(operation, capabilities)->Err_0.code
                == BACKEND_CAPABILITY_UNSUPPORTED@
        }),
{
}

/// Every animation operation, whatever its lifecycle, needs the animations
/// capability: a backend without it refuses the operation, and one with it
/// accepts it.
pub proof fn lemma_animations_need_animation_capability(
    lifecycle: AnimationLifecycle,
    capabilities: BackendCapabilitySet,
)
    ensures
        operation_capability_check(BackendOperation::Animation(lifecycle), capabilities) is Ok
            <==> capabilities.capabilities@.contains(BackendCapability::Animations),
{
    lemma_operation_capability_table(BackendOperation::Animation(lifecycle), capabilities);
}

/// Each operation belongs to the family that names it; an animation's
/// family follows its lifecycle and a transaction group's family does not
/// depend on its phase.
pub proof fn lemma_operation_family_table(operation: BackendOperation)
    ensures
        operation is Create ==> operation_family(operation) == BackendOperationFamily::Create,
        operation is Destroy ==> operation_family(operation) == BackendOperationFamily::Destroy,
        operation is Root ==> operation_family(operation) == BackendOperationFamily::Root,
        operation is Move ==> operation_family(operation) == BackendOperationFamily::Move,
        operation is AttributeStyle ==> operation_family(operation)
            == BackendOperationFamily::AttributeStyle,
        operation == BackendOperation::Animation(AnimationLifecycle::Start) ==> operation_family(
            operation,
        ) == BackendOperationFamily::AnimationStart,
        operation == BackendOperation::Animation(AnimationLifecycle::End) ==> operation_family(
            operation,
        ) == BackendOperationFamily::AnimationEnd,
        operation == BackendOperation::Animation(AnimationLifecycle::Cancel) ==> operation_family(
            operation,
        ) == BackendOperationFamily::AnimationCancel,
        operation is LayoutCallback ==> operation_family(operation)
            == BackendOperationFamily::LayoutCallback,
        operation is DrawCallback ==> operation_family(operation) == BackendOperationFamily::DrawCallback,
        operation is VisibilityObserver ==> operation_family(operation)
            == BackendOperationFamily::VisibilityObserver,
        operation is FrameObserver ==> operation_family(operation)
            == BackendOperationFamily::FrameObserver,
        operation is AssetLoad ==> operation_family(operation) == BackendOperationFamily::AssetLoad,
        operation is TextMeasure ==> operation_family(operation) == BackendOperationFamily::TextMeasure,
        operation is NativeViewMount ==> operation_family(operation)
            == BackendOperationFamily::NativeViewMount,
        operation is WebViewMount ==> operation_family(operation) == BackendOperationFamily::WebViewMount,
        operation is TransactionGroup ==> operation_family(operation)
            == BackendOperationFamily::TransactionGroup,
{
}

/// The families of a list of operations, in order.
pub open spec fn operation_families(operations: Seq<BackendOperation>) -> Seq<BackendOperationFamily> {
    operations.map_values(|op: BackendOperation| operation_family(op))
}

/// The first required family, from position `i` on, that no operation has.
pub open spec fn first_missing_family(
    required: Seq<BackendOperationFamily>,
    present: Seq<BackendOperationFamily>,
    i: int,
) -> Option<BackendOperationFamily>
    decreases required.len() - i,
{
    if i < 0 || i >= required.len() {
        None
    } else if !present.contains(required[i]) {
        Some(required[i])
    } else {
        first_missing_family(required, present, i + 1)
    }
}

/// The check that operations cover every required family.
pub open spec fn required_families_check(operations: Seq<BackendOperation>) -> Result<
    (),
    BackendDiagnosticView,
> {
    match first_missing_family(REQUIRED_OPERATION_FAMILIES@, operation_families(operations), 0) {
        None => Ok(()),
        Some(family) => Err(
            backend_error(
                BACKEND_OPERATION_FAMILY_MISSING@,
                family_path(family),
                "missing backend operation family "@ + family_text(family),
            ),
        ),
    }
}

proof fn lemma_first_missing_family_none_iff(
    required: Seq<BackendOperationFamily>,
    present: Seq<BackendOperationFamily>,
    i: int,
)
    requires
        0 <= i <= required.len(),
    ensures
        first_missing_family(required, present, i) is None <==> forall|j: int|
            i <= j < required.len() ==> present.contains(#[trigger] required[j]),
        first_missing_family(required, present, i) matches Some(f) ==> !present.contains(f),
    decreases required.len() - i,
{
    if i < required.len() {
        lemma_first_missing_family_none_iff(required, present, i + 1);
    }
}

/// Operations pass the coverage check exactly when every operation family
/// occurs among them; otherwise the check reports, with
/// `BACKEND_OPERATION_FAMILY_MISSING`, a family that none of them has.
pub proof fn lemma_required_families_cover_every_family(operations: Seq<BackendOperation>)
    ensures
        required_families_check(operations) is Ok <==> forall|family: BackendOperationFamily|
            #[trigger] operation_families(operations).contains(family),
        required_families_check(operations) is Err ==> {
            &&& required_families_check(operations)->Err_0.code == BACKEND_OPERATION_FAMILY_MISSING@
            &&& exists|family: BackendOperationFamily|
                required_families_check(operations)->Err_0.path == #[trigger] family_path(family)
                    && !operation_families(operations).contains(family)
        },
{
    let required = REQUIRED_OPERATION_FAMILIES@;
    let present = operation_families(operations);
    lemma_first_missing_family_none_iff(required, present, 0);
    assert forall|family: BackendOperationFamily| required.contains(family) by {
        match family {
            BackendOperationFamily::Create => assert(required[0] == family),
            BackendOperationFamily::Destroy => assert(required[1] == family),
            BackendOperationFamily::Root => assert(required[2] == family),
            BackendOperationFamily::Move => assert(required[3] == family),
            BackendOperationFamily::AttributeStyle => assert(required[4] == family),
            BackendOperationFamily::AnimationStart => assert(required[5] == family),
            BackendOperationFamily::AnimationEnd => assert(required[6] == family),
            BackendOperationFamily::AnimationCancel => assert(required[7] == family),
            BackendOperationFamily::LayoutCallback => assert(required[8] == family),
            BackendOperationFamily::DrawCallback => assert(required[9] == family),
            BackendOperationFamily::VisibilityObserver => assert(required[10] == family),
            BackendOperationFamily::FrameObserver => assert(required[11] == family),
            BackendOperationFamily::AssetLoad => assert(required[12] == family),
            BackendOperationFamily::TextMeasure => assert(required[13] == family),
            BackendOperationFamily::NativeViewMount => assert(required[14] == family),
            BackendOperationFamily::WebViewMount => assert(required[15] == family),
            BackendOperationFamily::TransactionGroup => assert(required[16] == family),
        }
    }
    if required_families_check(operations) is Ok {
        assert forall|family: BackendOperationFamily| present.contains(family) by {
            let j = choose|j: int| 0 <= j < required.len() && required[j] == family;
            assert(present.contains(required[j]));
        }
    } else {
        let family = first_missing_family(required, present, 0)->0;
        assert(required_families_check(operations)->Err_0.path == family_path(family));
    }
}

fn has_family(operations: &[BackendOperation], family: BackendOperationFamily) -> (r: bool)
    ensures
        r == operation_families(operations@).contains(family),
{
    let mut i: usize = 0;
    while i < operations.len()
        invariant
            i <= operations@.len(),
            forall|j: int| 0 <= j < i ==> operation_family(#[trigger] operations@[j]) != family,
        decreases operations@.len() - i,
    {
        if operations[i].family() == family {
            assert(operation_families(operations@)[i as int] == family);
            return true;
        }
        i = i + 1;
    }
    proof {
        if operation_families(operations@).contains(family) {
            let k = choose|k: int|
                0 <= k < operation_families(operations@).len() && operation_families(
                    operations@,
                )[k] == family;
            assert(operation_family(operations@[k]) == family);
        }
    }
    false
}

/// Checks that the operations cover every required operation family; the
/// first family, in the required order, that no operation has is reported.
pub fn validate_required_operation_families(operations: &[BackendOperation]) -> (r: BackendResult<
    (),
>)
    ensures
        backend_outcome(r) == required_families_check(operations@),
{
    let ghost present = operation_families(operations@);
    let ghost required = REQUIRED_OPERATION_FAMILIES@;
    let mut i: usize = 0;
    while i < REQUIRED_OPERATION_FAMILIES.len()
        invariant
            i <= required.len(),
            required == REQUIRED_OPERATION_FAMILIES@,
            present == operation_families(operations@),
            first_missing_family(required, present, 0) == first_missing_family(required, present, i as int),
        decreases required.len() - i,
    {
        let family = REQUIRED_OPERATION_FAMILIES[i];
        if !has_family(operations, family) {
            let mut message = owned("missing backend operation family ");
            message.append(family.as_str());
            return Err(
                BackendDiagnostic::error(
                    BACKEND_OPERATION_FAMILY_MISSING,
                    family.diagnostic_path(),
                    message,
                ),
            );
        }
        i = i + 1;
    }
    Ok(())
}

/// The texts of a list of string slices.
pub open spec fn str_texts(items: Seq<&str>) -> Seq<Seq<char>> {
    items.map_values(|s: &str| s@)
}

/// The fixture tags of decisions, in order.
pub open spec fn decision_tags(decisions: Seq<FixtureTagBackendDecision>) -> Seq<Seq<char>> {
    decisions.map_values(|d: FixtureTagBackendDecision| d.fixture_tag@)
}

/// The first decision, from position `i` on, that lists no operation family.
pub open spec fn first_empty_decision(decisions: Seq<FixtureTagBackendDecision>, i: int) -> Option<int>
    decreases decisions.len() - i,
{
    if i < 0 || i >= decisions.len() {
        None
    } else if decisions[i].operation_families@.len() == 0 {
        Some(i)
    } else {
        first_empty_decision(decisions, i + 1)
    }
}

/// The first tag, from position `i` on, that occurs again after it.
pub open spec fn first_repeated_tag(tags: Seq<Seq<char>>, i: int) -> Option<int>
    decreases tags.len() - i,
{
    if i < 0 || i >= tags.len() {
        None
    } else if tags.subrange(i + 1, tags.len() as int).contains(tags[i]) {
        Some(i)
    } else {
        first_repeated_tag(tags, i + 1)
    }
}

/// The first item of `items`, from position `i` on, that `others` lacks.
pub open spec fn first_absent(items: Seq<Seq<char>>, others: Seq<Seq<char>>, i: int) -> Option<
    Seq<char>,
>
    decreases items.len() - i,
{
    if i < 0 || i >= items.len() {
        None
    } else if !others.contains(items[i]) {
        Some(items[i])
    } else {
        first_absent(items, others, i + 1)
    }
}

/// The checks of fixture tag decisions against the required tags, in four
/// passes: every decision lists a family, no tag is decided twice, every
/// required tag is decided, and every decided tag is required.
pub open spec fn tag_decisions_check(required: Seq<Seq<char>>, decisions: Seq<FixtureTagBackendDecision>) -> Result<
    (),
    BackendDiagnosticView,
> {
    let tags = decision_tags(decisions);
    match first_empty_decision(decisions, 0) {
        Some(k) => Err(
            backend_error(
                BACKEND_FIXTURE_TAG_MAPPING_EMPTY@,
                "$.fixture_tag_backend_decisions[].operation_families"@,
                "fixture tag "@ + tags[k] + " has no backend operation family"@,
            ),
        ),
        None => match first_repeated_tag(tags, 0) {
            Some(k) => Err(
                backend_error(
                    BACKEND_FIXTURE_TAG_MAPPING_DUPLICATE@,
                    "$.fixture_tag_backend_decisions[].fixture_tag"@,
                    "duplicate backend fixture tag decision "@ + tags[k],
                ),
            ),
            None => match first_absent(required, tags, 0) {
                Some(tag) => Err(
                    backend_error(
                        BACKEND_FIXTURE_TAG_MAPPING_MISSING@,
                        "$.fixture_tag_backend_decisions[].fixture_tag"@,
                        "missing backend fixture tag decision "@ + tag,
                    ),
                ),
                None => match first_absent(tags, required, 0) {
                    Some(tag) => Err(
                        backend_error(
                            BACKEND_FIXTURE_TAG_MAPPING_EXTRA@,
                            "$.fixture_tag_backend_decisions[].fixture_tag"@,
                            "extra backend fixture tag decision "@ + tag,
                        ),
                    ),
                    None => Ok(()),
                },
            },
        },
    }
}

proof fn lemma_first_empty_none_iff(decisions: Seq<FixtureTagBackendDecision>, i: int)
    requires
        0 <= i <= decisions.len(),
    ensures
        first_empty_decision(decisions, i) is None <==> forall|k: int|
            i <= k < decisions.len() ==> (#[trigger] decisions[k]).operation_families@.len() > 0,
    decreases decisions.len() - i,
{
    if i < decisions.len() {
        lemma_first_empty_none_iff(decisions, i + 1);
    }
}

proof fn lemma_first_repeated_none_iff(tags: Seq<Seq<char>>, i: int)
    requires
        0 <= i <= tags.len(),
    ensures
        first_repeated_tag(tags, i) is None <==> forall|a: int, b: int|
            i <= a < b < tags.len() ==> #[trigger] tags[a] != #[trigger] tags[b],
    decreases tags.len() - i,
{
    if i < tags.len() {
        lemma_first_repeated_none_iff(tags, i + 1);
        let later = tags.subrange(i + 1, tags.len() as int);
        if later.contains(tags[i]) {
            let j = choose|j: int| 0 <= j < later.len() && later[j] == tags[i];
            assert(tags[i + 1 + j] == tags[i]);
        } else {
            assert forall|b: int| i < b < tags.len() implies tags[i] != #[trigger] tags[b] by {
                assert(later[b - i - 1] == tags[b]);
            }
        }
    }
}

proof fn lemma_first_absent_none_iff(items: Seq<Seq<char>>, others: Seq<Seq<char>>, i: int)
    requires
        0 <= i <= items.len(),
    ensures
        first_absent(items, others, i) is None <==> forall|k: int|
            i <= k < items.len() ==> others.contains(#[trigger] items[k]),
    decreases items.len() - i,
{
    if i < items.len() {
        lemma_first_absent_none_iff(items, others, i + 1);
    }
}

/// Fixture tag decisions are accepted exactly when every decision lists an
/// operation family, no tag is decided twice, and the decided tags are the
/// required tags.  A refusal reports, in this order of precedence, a
/// decision without families, a tag decided twice, a required tag without
/// a decision, and a decided tag that is not required.
pub proof fn lemma_tag_decisions_accepted_iff(
    required: Seq<Seq<char>>,
    decisions: Seq<FixtureTagBackendDecision>,
)
    ensures
        ({
            let tags = decision_tags(decisions);
            let all_listed = forall|k: int|
                0 <= k < decisions.len() ==> (#[trigger] decisions[k]).operation_families@.len() > 0;
            let required_decided = forall|t: Seq<char>| required.contains(t) ==> tags.contains(t);
            let decided_required = forall|t: Seq<char>| tags.contains(t) ==> required.contains(t);
            let check = tag_decisions_check(required, decisions);
            &&& check is Ok <==> all_listed && tags.no_duplicates() && required_decided
                && decided_required
            &&& !all_listed ==> (check is Err && check->Err_0.code == BACKEND_FIXTURE_TAG_MAPPING_EMPTY@)
            &&& all_listed && !tags.no_duplicates() ==> (check is Err && check->Err_0.code == BACKEND_FIXTURE_TAG_MAPPING_DUPLICATE@)
            &&& all_listed && tags.no_duplicates() && !required_decided ==> (check is Err && check->Err_0.code == BACKEND_FIXTURE_TAG_MAPPING_MISSING@)
            &&& all_listed && tags.no_duplicates() && required_decided && !decided_required
                ==> (check is Err && check->Err_0.code == BACKEND_FIXTURE_TAG_MAPPING_EXTRA@)
            &&& check is Err ==> check->Err_0.severity == BackendDiagnosticSeverity::Error
        }),
{
    let tags = decision_tags(decisions);
    lemma_first_empty_none_iff(decisions, 0);
    lemma_first_repeated_none_iff(tags, 0);
    lemma_first_absent_none_iff(required, tags, 0);
    lemma_first_absent_none_iff(tags, required, 0);
    assert(tags.no_duplicates() <==> forall|a: int, b: int|
        0 <= a < b < tags.len() ==> #[trigger] tags[a] != #[trigger] tags[b]) by {
        if forall|a: int, b: int| 0 <= a < b < tags.len() ==> #[trigger] tags[a] != #[trigger] tags[b] {
            assert forall|a: int, b: int| 0 <= a < tags.len() && 0 <= b < tags.len() && a != b implies tags[a] != tags[b] by {
                if a < b {
                    assert(tags[a] != tags[b]);
                } else {
                    assert(tags[b] != tags[a]);
                }
            }
        }
    }
    assert((forall|t: Seq<char>| required.contains(t) ==> tags.contains(t)) <==> forall|k: int|
        0 <= k < required.len() ==> tags.contains(#[trigger] required[k])) by {
        if forall|k: int| 0 <= k < required.len() ==> tags.contains(#[trigger] required[k]) {
            assert forall|t: Seq<char>| required.contains(t) implies tags.contains(t) by {
                let k = choose|k: int| 0 <= k < required.len() && required[k] == t;
                assert(tags.contains(required[k]));
            }
        }
    }
    assert((forall|t: Seq<char>| tags.contains(t) ==> required.contains(t)) <==> forall|k: int|
        0 <= k < tags.len() ==> required.contains(#[trigger] tags[k])) by {
        if forall|k: int| 0 <= k < tags.len() ==> required.contains(#[trigger] tags[k]) {
            assert forall|t: Seq<char>| tags.contains(t) implies required.contains(t) by {
                let k = choose|k: int| 0 <= k < tags.len() && tags[k] == t;
                assert(required.contains(tags[k]));
            }
        }
    }
}

fn has_tag(decisions: &[FixtureTagBackendDecision], tag: &str) -> (r: bool)
    ensures
        r == decision_tags(decisions@).contains(tag@),
{
    let ghost tags = decision_tags(decisions@);
    let mut i: usize = 0;
    while i < decisions.len()
        invariant
            i <= decisions@.len(),
            tags == decision_tags(decisions@),
            forall|j: int| 0 <= j < i ==> tags[j] != tag@,
        decreases decisions@.len() - i,
    {
        if same_text(decisions[i].fixture_tag, tag) {
            assert(tags[i as int] == tag@);
            return true;
        }
        i = i + 1;
    }
    false
}

fn is_required(required_tags: &[&str], tag: &str) -> (r: bool)
    ensures
        r == str_texts(required_tags@).contains(tag@),
{
    let ghost req = str_texts(required_tags@);
    let mut i: usize = 0;
    while i < required_tags.len()
        invariant
            i <= required_tags@.len(),
            req == str_texts(required_tags@),
            forall|j: int| 0 <= j < i ==> req[j] != tag@,
        decreases required_tags@.len() - i,
    {
        if same_text(required_tags[i], tag) {
            assert(req[i as int] == tag@);
            return true;
        }
        i = i + 1;
    }
    false
}

fn decided_again(decisions: &[FixtureTagBackendDecision], i: usize) -> (r: bool)
    requires
        i < decisions@.len(),
    ensures
        r == decision_tags(decisions@).subrange(i + 1, decisions@.len() as int).contains(
            decision_tags(decisions@)[i as int],
        ),
{
    let ghost tags = decision_tags(decisions@);
    let ghost later = tags.subrange(i + 1, decisions@.len() as int);
    let n = decisions.len();
    let mut j: usize = i + 1;
    while j < decisions.len()
        invariant
            i < j <= decisions@.len(),
            tags == decision_tags(decisions@),
            later == tags.subrange(i + 1, decisions@.len() as int),
            forall|k: int| i + 1 <= k < j ==> tags[k] != tags[i as int],
        decreases decisions@.len() - j,
    {
        if same_text(decisions[j].fixture_tag, decisions[i].fixture_tag) {
            assert(later[j - i - 1] == tags[i as int]);
            return true;
        }
        j = j + 1;
    }
    proof {
        if later.contains(tags[i as int]) {
            let k = choose|k: int| 0 <= k < later.len() && later[k] == tags[i as int];
            assert(tags[k + i + 1] == tags[i as int]);
        }
    }
    false
}

/// Checks the backend decisions for fixture tags against the tags that the
/// corpus requires: every decision lists an operation family, no tag is
/// decided twice, every required tag is decided and every decided tag is
/// required.  Accepted decisions decide exactly the required tags, once each.
pub fn validate_fixture_tag_decisions(
    required_tags: &[&str],
    decisions: &[FixtureTagBackendDecision],
) -> (r: BackendResult<()>)
    ensures
        backend_outcome(r) == tag_decisions_check(str_texts(required_tags@), decisions@),
        r is Ok <==> {
            let tags = decision_tags(decisions@);
            &&& tags.no_duplicates()
            &&& forall|k: int| 0 <= k < decisions@.len() ==> (#[trigger] decisions@[k]).operation_families@.len() > 0
            &&& forall|t: Seq<char>| tags.contains(t) <==> str_texts(required_tags@).contains(t)
        },
{
    let r = check_tag_decisions(required_tags, decisions);
    proof {
        lemma_tag_decisions_accepted_iff(str_texts(required_tags@), decisions@);
    }
    r
}

fn check_tag_decisions(required_tags: &[&str], decisions: &[FixtureTagBackendDecision]) -> (r:
    BackendResult<()>)
    ensures
        backend_outcome(r) == tag_decisions_check(str_texts(required_tags@), decisions@),
{
    let ghost tags = decision_tags(decisions@);
    let ghost req = str_texts(required_tags@);
    let mut i: usize = 0;
    while i < decisions.len()
        invariant
            i <= decisions@.len(),
            first_empty_decision(decisions@, 0) == first_empty_decision(decisions@, i as int),
        decreases decisions@.len() - i,
    {
        if decisions[i].operation_families.len() == 0 {
            let mut message = owned("fixture tag ");
            message.append(decisions[i].fixture_tag);
            message.append(" has no backend operation family");
            return Err(
                BackendDiagnostic::error(
                    BACKEND_FIXTURE_TAG_MAPPING_EMPTY,
                    "$.fixture_tag_backend_decisions[].operation_families",
                    message,
                ),
            );
        }
        i = i + 1;
    }
    let mut i: usize = 0;
    while i < decisions.len()
        invariant
            i <= decisions@.len(),
            tags == decision_tags(decisions@),
            first_empty_decision(decisions@, 0) is None,
            first_repeated_tag(tags, 0) == first_repeated_tag(tags, i as int),
        decreases decisions@.len() - i,
    {
        if decided_again(decisions, i) {
            let mut message = owned("duplicate backend fixture tag decision ");
            message.append(decisions[i].fixture_tag);
            return Err(
                BackendDiagnostic::error(
                    BACKEND_FIXTURE_TAG_MAPPING_DUPLICATE,
                    "$.fixture_tag_backend_decisions[].fixture_tag",
                    message,
                ),
            );
        }
        i = i + 1;
    }
    let mut i: usize = 0;
    while i < required_tags.len()
        invariant
            i <= required_tags@.len(),
            tags == decision_tags(decisions@),
            req == str_texts(required_tags@),
            first_empty_decision(decisions@, 0) is None,
            first_repeated_tag(tags, 0) is None,
            first_absent(req, tags, 0) == first_absent(req, tags, i as int),
        decreases required_tags@.len() - i,
    {
        if !has_tag(decisions, required_tags[i]) {
            let mut message = owned("missing backend fixture tag decision ");
            message.append(required_tags[i]);
            return Err(
                BackendDiagnostic::error(
                    BACKEND_FIXTURE_TAG_MAPPING_MISSING,
                    "$.fixture_tag_backend_decisions[].fixture_tag",
                    message,
                ),
            );
        }
        i = i + 1;
    }
    let mut i: usize = 0;
    while i < decisions.len()
        invariant
            i <= decisions@.len(),
            tags == decision_tags(decisions@),
            req == str_texts(required_tags@),
            first_empty_decision(decisions@, 0) is None,
            first_repeated_tag(tags, 0) is None,
            first_absent(req, tags, 0) is None,
            first_absent(tags, req, 0) == first_absent(tags, req, i as int),
        decreases decisions@.len() - i,
    {
        if !is_required(required_tags, decisions[i].fixture_tag) {
            let mut message = owned("extra backend fixture tag decision ");
            message.append(decisions[i].fixture_tag);
            return Err(
                BackendDiagnostic::error(
                    BACKEND_FIXTURE_TAG_MAPPING_EXTRA,
                    "$.fixture_tag_backend_decisions[].fixture_tag",
                    message,
                ),
            );
        }
        i = i + 1;
    }
    Ok(())
}

} // verus!
