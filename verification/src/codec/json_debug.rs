//! The fixture and contract documents of the JSON debug form, and the shape
//! checks that every decode and encode applies.

use vstd::prelude::*;

use crate::codec::diagnostics::{
    check_outcome, codec_error, then_check, CodecDiagnostic, CodecDiagnosticView, CodecResult,
    DiagnosticSeverity,
};
use crate::codec::CURRENT_SCHEMA_VERSION;
use crate::text::{
    copy_opt_text, copy_texts, decimal, is_blank, is_blank_text, opt_text, owned, push_decimal, texts,
};

verus! {

#[derive(Clone, Debug, PartialEq, Eq)]
pub struct SchemaVersion {
    pub id: String,
    pub major: u16,
    pub minor: u16,
}

#[derive(Clone, Debug, PartialEq, Eq)]
pub struct FixtureMetadata {
    pub owner_prs: Vec<String>,
    pub proof_prs: Vec<String>,
    pub serialized_artifact_path: String,
}

#[derive(Clone, Debug, PartialEq, Eq)]
pub struct IrDebugEnvelope {
    pub schema_version: SchemaVersion,
    pub contract_surface: String,
    pub root_node_id: String,
    pub component_id: String,
    pub source_span: Option<String>,
    pub coverage_tokens: Vec<String>,
}

#[derive(Clone, Debug, PartialEq, Eq)]
pub struct FixtureEnvelope {
    pub fixture_schema_version: u16,
    pub fixture_id: String,
    pub contract_row_id: String,
    pub surface: String,
    pub fixture_tags: Vec<String>,
    pub platform_targets: Vec<String>,
    pub metadata: FixtureMetadata,
    pub ir_debug: IrDebugEnvelope,
}

#[derive(Clone, Debug, PartialEq, Eq)]
pub struct FixtureManifestEntry {
    pub fixture_id: String,
    pub contract_row_id: String,
    pub surface: String,
    pub fixture_tags: Vec<String>,
    pub platform_targets: Vec<String>,
    pub owner_prs: Vec<String>,
    pub proof_prs: Vec<String>,
    pub serialized_artifact_path: String,
}

#[derive(Clone, Debug, PartialEq, Eq)]
pub struct FixtureManifest {
    pub schema_version: u16,
    pub owner_pr: String,
    pub source_contract: String,
    pub fixture_id_format: String,
    pub serialized_artifact_root: String,
    pub fixtures: Vec<FixtureManifestEntry>,
}

#[derive(Clone, Debug, PartialEq, Eq)]
pub struct ContractDocument {
    pub schema_version: u16,
    pub fixture_tags: Vec<String>,
    pub platform_targets: Vec<String>,
    pub rows: Vec<ContractRow>,
}

#[derive(Clone, Debug, PartialEq, Eq)]
pub struct ContractRow {
    pub id: String,
    pub surface: String,
    pub coverage: Vec<String>,
    pub owner_prs: Vec<String>,
    pub proof_prs: Vec<String>,
    pub fixture_tags: Vec<String>,
    pub platform_targets: Vec<String>,
}

#[derive(Clone, Debug, PartialEq, Eq)]
pub struct InvalidDiagnostic {
    pub code: String,
    pub path: String,
    pub severity: DiagnosticSeverity,
}

#[derive(Clone, Debug, PartialEq, Eq)]
pub struct InvalidFixture {
    pub fixture_id: String,
    pub diagnostic_family: String,
    pub expected_diagnostic: InvalidDiagnostic,
}

#[derive(Clone, Debug, PartialEq, Eq)]
pub struct InvalidFixtureManifest {
    pub schema_version: u16,
    pub owner_pr: String,
    pub source_ir_module: String,
    pub invalid_fixture_id_format: String,
    pub invalid_fixtures: Vec<InvalidFixture>,
}

/// A fixture envelope as plain texts.
pub struct FixtureEnvelopeView {
    pub fixture_schema_version: u16,
    pub fixture_id: Seq<char>,
    pub contract_row_id: Seq<char>,
    pub surface: Seq<char>,
    pub fixture_tags: Seq<Seq<char>>,
    pub platform_targets: Seq<Seq<char>>,
    pub owner_prs: Seq<Seq<char>>,
    pub proof_prs: Seq<Seq<char>>,
    pub serialized_artifact_path: Seq<char>,
    pub schema_id: Seq<char>,
    pub schema_major: u16,
    pub schema_minor: u16,
    pub contract_surface: Seq<char>,
    pub root_node_id: Seq<char>,
    pub component_id: Seq<char>,
    pub source_span: Option<Seq<char>>,
    pub coverage_tokens: Seq<Seq<char>>,
}

impl View for FixtureEnvelope {
    type V = FixtureEnvelopeView;

    open spec fn view(&self) -> FixtureEnvelopeView {
        FixtureEnvelopeView {
            fixture_schema_version: self.fixture_schema_version,
            fixture_id: self.fixture_id@,
            contract_row_id: self.contract_row_id@,
            surface: self.surface@,
            fixture_tags: texts(self.fixture_tags@),
            platform_targets: texts(self.platform_targets@),
            owner_prs: texts(self.metadata.owner_prs@),
            proof_prs: texts(self.metadata.proof_prs@),
            serialized_artifact_path: self.metadata.serialized_artifact_path@,
            schema_id: self.ir_debug.schema_version.id@,
            schema_major: self.ir_debug.schema_version.major,
            schema_minor: self.ir_debug.schema_version.minor,
            contract_surface: self.ir_debug.contract_surface@,
            root_node_id: self.ir_debug.root_node_id@,
            component_id: self.ir_debug.component_id@,
            source_span: opt_text(self.ir_debug.source_span),
            coverage_tokens: texts(self.ir_debug.coverage_tokens@),
        }
    }
}

impl FixtureEnvelope {
    /// A copy of the fixture.
    pub fn duplicate(&self) -> (r: Self)
        ensures
            r@ == self@,
    {
        FixtureEnvelope {
            fixture_schema_version: self.fixture_schema_version,
            fixture_id: self.fixture_id.clone(),
            contract_row_id: self.contract_row_id.clone(),
            surface: self.surface.clone(),
            fixture_tags: copy_texts(&self.fixture_tags),
            platform_targets: copy_texts(&self.platform_targets),
            metadata: FixtureMetadata {
                owner_prs: copy_texts(&self.metadata.owner_prs),
                proof_prs: copy_texts(&self.metadata.proof_prs),
                serialized_artifact_path: self.metadata.serialized_artifact_path.clone(),
            },
            ir_debug: IrDebugEnvelope {
                schema_version: SchemaVersion {
                    id: self.ir_debug.schema_version.id.clone(),
                    major: self.ir_debug.schema_version.major,
                    minor: self.ir_debug.schema_version.minor,
                },
                contract_surface: self.ir_debug.contract_surface.clone(),
                root_node_id: self.ir_debug.root_node_id.clone(),
                component_id: self.ir_debug.component_id.clone(),
                source_span: copy_opt_text(&self.ir_debug.source_span),
                coverage_tokens: copy_texts(&self.ir_debug.coverage_tokens),
            },
        }
    }
}

/// An invalid fixture entry as plain texts.
pub struct InvalidFixtureView {
    pub fixture_id: Seq<char>,
    pub diagnostic_family: Seq<char>,
    pub code: Seq<char>,
    pub path: Seq<char>,
    pub severity: DiagnosticSeverity,
}

impl View for InvalidFixture {
    type V = InvalidFixtureView;

    open spec fn view(&self) -> InvalidFixtureView {
        InvalidFixtureView {
            fixture_id: self.fixture_id@,
            diagnostic_family: self.diagnostic_family@,
            code: self.expected_diagnostic.code@,
            path: self.expected_diagnostic.path@,
            severity: self.expected_diagnostic.severity,
        }
    }
}

/// An invalid fixture manifest as plain texts.
pub struct InvalidFixtureManifestView {
    pub schema_version: u16,
    pub owner_pr: Seq<char>,
    pub source_ir_module: Seq<char>,
    pub invalid_fixture_id_format: Seq<char>,
    pub invalid_fixtures: Seq<InvalidFixtureView>,
}

impl View for InvalidFixtureManifest {
    type V = InvalidFixtureManifestView;

    open spec fn view(&self) -> InvalidFixtureManifestView {
        InvalidFixtureManifestView {
            schema_version: self.schema_version,
            owner_pr: self.owner_pr@,
            source_ir_module: self.source_ir_module@,
            invalid_fixture_id_format: self.invalid_fixture_id_format@,
            invalid_fixtures: self.invalid_fixtures@.map_values(|f: InvalidFixture| f@),
        }
    }
}

/// The check that a document carries the current schema version.
pub open spec fn version_check(version: u16, path: Seq<char>) -> Result<(), CodecDiagnosticView> {
    if version == CURRENT_SCHEMA_VERSION {
        Ok(())
    } else {
        Err(
            codec_error(
                "IR_SCHEMA_VERSION_UNSUPPORTED"@,
                path,
                "unsupported schema version "@ + decimal(version as nat),
            ),
        )
    }
}

/// The check that a required text field is not blank.
pub open spec fn text_check(name: Seq<char>, path: Seq<char>, value: Seq<char>) -> Result<
    (),
    CodecDiagnosticView,
> {
    if !is_blank_text(value) {
        Ok(())
    } else {
        Err(codec_error("IR_FIELD_REQUIRED"@, path, name + " is required"@))
    }
}

/// The check that a required list is not empty.
pub open spec fn rows_check(name: Seq<char>, path: Seq<char>, len: nat) -> Result<
    (),
    CodecDiagnosticView,
> {
    if len > 0 {
        Ok(())
    } else {
        Err(codec_error("IR_FIELD_REQUIRED"@, path, name + " are required"@))
    }
}

/// The shape every fixture envelope must have, checked field by field in
/// this order; the first failing field decides the diagnostic.
pub open spec fn fixture_shape(f: FixtureEnvelopeView) -> Result<(), CodecDiagnosticView> {
    then_check(
        version_check(f.fixture_schema_version, "$.fixture_schema_version"@),
        then_check(
            text_check("fixture_id"@, "$.fixture_id"@, f.fixture_id),
            then_check(
                text_check("contract_row_id"@, "$.contract_row_id"@, f.contract_row_id),
                then_check(
                    text_check("surface"@, "$.surface"@, f.surface),
                    then_check(
                        rows_check("fixture tags"@, "$.fixture_tags"@, f.fixture_tags.len()),
                        then_check(
                            rows_check(
                                "platform targets"@,
                                "$.platform_targets"@,
                                f.platform_targets.len(),
                            ),
                            fixture_shape_rest(f),
                        ),
                    ),
                ),
            ),
        ),
    )
}

/// The checks of `fixture_shape` after the platform targets.
pub open spec fn fixture_shape_rest(f: FixtureEnvelopeView) -> Result<(), CodecDiagnosticView> {
    then_check(
        rows_check("owner PRs"@, "$.metadata.owner_prs"@, f.owner_prs.len()),
        then_check(
            rows_check("proof PRs"@, "$.metadata.proof_prs"@, f.proof_prs.len()),
            then_check(
                text_check(
                    "serialized_artifact_path"@,
                    "$.metadata.serialized_artifact_path"@,
                    f.serialized_artifact_path,
                ),
                then_check(
                    text_check(
                        "contract_surface"@,
                        "$.ir_debug.contract_surface"@,
                        f.contract_surface,
                    ),
                    then_check(
                        text_check("root_node_id"@, "$.ir_debug.root_node_id"@, f.root_node_id),
                        then_check(
                            text_check(
                                "component_id"@,
                                "$.ir_debug.component_id"@,
                                f.component_id,
                            ),
                            rows_check(
                                "coverage tokens"@,
                                "$.ir_debug.coverage_tokens"@,
                                f.coverage_tokens.len(),
                            ),
                        ),
                    ),
                ),
            ),
        ),
    )
}

/// A fixture has the fixture shape exactly when its schema version is the
/// current one, none of its fixture ID, contract row ID, surface, artifact
/// path, contract surface, root node ID and component ID is blank, and none
/// of its fixture tags, platform targets, owner PRs, proof PRs and coverage
/// tokens is empty.  A wrong version is reported first, with
/// `IR_SCHEMA_VERSION_UNSUPPORTED`; any other failure with
/// `IR_FIELD_REQUIRED`.
pub proof fn lemma_fixture_shape_fields(f: FixtureEnvelopeView)
    ensures
        fixture_shape(f) is Ok <==> {
            &&& f.fixture_schema_version == CURRENT_SCHEMA_VERSION
            &&& !is_blank_text(f.fixture_id)
            &&& !is_blank_text(f.contract_row_id)
            &&& !is_blank_text(f.surface)
            &&& f.fixture_tags.len() > 0
            &&& f.platform_targets.len() > 0
            &&& f.owner_prs.len() > 0
            &&& f.proof_prs.len() > 0
            &&& !is_blank_text(f.serialized_artifact_path)
            &&& !is_blank_text(f.contract_surface)
            &&& !is_blank_text(f.root_node_id)
            &&& !is_blank_text(f.component_id)
            &&& f.coverage_tokens.len() > 0
        },
        f.fixture_schema_version != CURRENT_SCHEMA_VERSION ==> fixture_shape(f)->Err_0.code
            == "IR_SCHEMA_VERSION_UNSUPPORTED"@,
        f.fixture_schema_version == CURRENT_SCHEMA_VERSION && fixture_shape(f) is Err
            ==> fixture_shape(f)->Err_0.code == "IR_FIELD_REQUIRED"@,
{
}

/// The checks of one invalid fixture entry.
pub open spec fn invalid_entry_shape(f: InvalidFixtureView) -> Result<(), CodecDiagnosticView> {
    then_check(
        text_check("fixture_id"@, "$.invalid_fixtures[].fixture_id"@, f.fixture_id),
        then_check(
            text_check(
                "diagnostic_family"@,
                "$.invalid_fixtures[].diagnostic_family"@,
                f.diagnostic_family,
            ),
            then_check(
                text_check(
                    "expected diagnostic code"@,
                    "$.invalid_fixtures[].expected_diagnostic.code"@,
                    f.code,
                ),
                text_check(
                    "expected diagnostic path"@,
                    "$.invalid_fixtures[].expected_diagnostic.path"@,
                    f.path,
                ),
            ),
        ),
    )
}

/// The first failing invalid fixture entry, in order.
pub open spec fn invalid_entries_shape(fs: Seq<InvalidFixtureView>) -> Result<
    (),
    CodecDiagnosticView,
>
    decreases fs.len(),
{
    if fs.len() == 0 {
        Ok(())
    } else {
        then_check(invalid_entry_shape(fs[0]), invalid_entries_shape(fs.drop_first()))
    }
}

/// The shape every invalid fixture manifest must have.
pub open spec fn invalid_manifest_shape(m: InvalidFixtureManifestView) -> Result<
    (),
    CodecDiagnosticView,
> {
    then_check(
        version_check(m.schema_version, "$.schema_version"@),
        then_check(
            text_check("owner_pr"@, "$.owner_pr"@, m.owner_pr),
            then_check(
                text_check("source_ir_module"@, "$.source_ir_module"@, m.source_ir_module),
                then_check(
                    text_check(
                        "invalid_fixture_id_format"@,
                        "$.invalid_fixture_id_format"@,
                        m.invalid_fixture_id_format,
                    ),
                    then_check(
                        rows_check(
                            "invalid fixtures"@,
                            "$.invalid_fixtures"@,
                            m.invalid_fixtures.len(),
                        ),
                        invalid_entries_shape(m.invalid_fixtures),
                    ),
                ),
            ),
        ),
    )
}

/// The checks a decoded contract document must pass.
pub open spec fn contract_shape(c: ContractDocument) -> Result<(), CodecDiagnosticView> {
    then_check(
        version_check(c.schema_version, "$.schema_version"@),
        rows_check("contract rows"@, "$.rows"@, c.rows@.len()),
    )
}

/// The checks a decoded fixture manifest must pass.
pub open spec fn manifest_shape(m: FixtureManifest) -> Result<(), CodecDiagnosticView> {
    then_check(
        version_check(m.schema_version, "$.schema_version"@),
        then_check(
            text_check("owner_pr"@, "$.owner_pr"@, m.owner_pr@),
            rows_check("fixtures"@, "$.fixtures"@, m.fixtures@.len()),
        ),
    )
}

proof fn lemma_invalid_entries_shape_all(fs: Seq<InvalidFixtureView>)
    ensures
        invalid_entries_shape(fs) is Ok <==> forall|i: int|
            0 <= i < fs.len() ==> (#[trigger] invalid_entry_shape(fs[i])) is Ok,
    decreases fs.len(),
{
    if fs.len() > 0 {
        lemma_invalid_entries_shape_all(fs.drop_first());
        if invalid_entries_shape(fs) is Ok {
            assert forall|i: int| 0 <= i < fs.len() implies (#[trigger] invalid_entry_shape(
                fs[i],
            )) is Ok by {
                if i > 0 {
                    assert(fs[i] == fs.drop_first()[i - 1]);
                }
            }
        } else if invalid_entry_shape(fs[0]) is Ok {
            let j = choose|j: int|
                0 <= j < fs.drop_first().len() && !((#[trigger] invalid_entry_shape(
                    fs.drop_first()[j],
                )) is Ok);
            assert(fs.drop_first()[j] == fs[j + 1]);
        }
    }
}

/// An invalid fixture manifest has its shape exactly when its schema version
/// is the current one, its owner PR, source IR module and fixture ID format
/// are not blank, it lists at least one invalid fixture, and no entry has a
/// blank fixture ID, diagnostic family, expected code or expected path.
pub proof fn lemma_invalid_manifest_shape_fields(m: InvalidFixtureManifestView)
    ensures
        invalid_manifest_shape(m) is Ok <==> {
            &&& m.schema_version == CURRENT_SCHEMA_VERSION
            &&& !is_blank_text(m.owner_pr)
            &&& !is_blank_text(m.source_ir_module)
            &&& !is_blank_text(m.invalid_fixture_id_format)
            &&& m.invalid_fixtures.len() > 0
            &&& forall|i: int|
                0 <= i < m.invalid_fixtures.len() ==> {
                    &&& !is_blank_text((#[trigger] m.invalid_fixtures[i]).fixture_id)
                    &&& !is_blank_text(m.invalid_fixtures[i].diagnostic_family)
                    &&& !is_blank_text(m.invalid_fixtures[i].code)
                    &&& !is_blank_text(m.invalid_fixtures[i].path)
                }
        },
        m.schema_version != CURRENT_SCHEMA_VERSION ==> invalid_manifest_shape(m)->Err_0.code
            == "IR_SCHEMA_VERSION_UNSUPPORTED"@,
{
    lemma_invalid_entries_shape_all(m.invalid_fixtures);
    let fs = m.invalid_fixtures;
    let fields_ok = forall|i: int|
        0 <= i < fs.len() ==> {
            &&& !is_blank_text((#[trigger] fs[i]).fixture_id)
            &&& !is_blank_text(fs[i].diagnostic_family)
            &&& !is_blank_text(fs[i].code)
            &&& !is_blank_text(fs[i].path)
        };
    let entries_ok = forall|i: int| 0 <= i < fs.len() ==> (#[trigger] invalid_entry_shape(fs[i])) is Ok;
    if fields_ok {
        assert forall|i: int| 0 <= i < fs.len() implies (#[trigger] invalid_entry_shape(fs[i])) is Ok by {
            assert(!is_blank_text(fs[i].fixture_id));
        }
    }
    if entries_ok {
        assert forall|i: int| 0 <= i < fs.len() implies {
            &&& !is_blank_text((#[trigger] fs[i]).fixture_id)
            &&& !is_blank_text(fs[i].diagnostic_family)
            &&& !is_blank_text(fs[i].code)
            &&& !is_blank_text(fs[i].path)
        } by {
            assert(invalid_entry_shape(fs[i]) is Ok);
        }
    }
    assert(fields_ok <==> entries_ok);
}

/// A contract document has its shape exactly when its schema version is the
/// current one and it has at least one row; a fixture manifest exactly when
/// its schema version is the current one, its owner PR is not blank and it
/// lists at least one fixture.
pub proof fn lemma_document_shapes(c: ContractDocument, m: FixtureManifest)
    ensures
        contract_shape(c) is Ok <==> c.schema_version == CURRENT_SCHEMA_VERSION && c.rows@.len() > 0,
        manifest_shape(m) is Ok <==> m.schema_version == CURRENT_SCHEMA_VERSION && !is_blank_text(
            m.owner_pr@,
        ) && m.fixtures@.len() > 0,
{
}

pub fn require_version(version: u16, path: &str) -> (r: CodecResult<()>)
    ensures
        check_outcome(r) == version_check(version, path@),
{
    if version == CURRENT_SCHEMA_VERSION {
        return Ok(());
    }
    let mut message = owned("unsupported schema version ");
    push_decimal(&mut message, version as u64);
    Err(CodecDiagnostic::error("IR_SCHEMA_VERSION_UNSUPPORTED", path, message))
}

pub fn require_non_empty(name: &str, path: &str, value: &str) -> (r: CodecResult<()>)
    ensures
        check_outcome(r) == text_check(name@, path@, value@),
{
    if !is_blank(value) {
        return Ok(());
    }
    let mut message = owned(name);
    message.append(" is required");
    Err(CodecDiagnostic::error("IR_FIELD_REQUIRED", path, message))
}

pub fn require_non_empty_rows(name: &str, path: &str, len: usize) -> (r: CodecResult<()>)
    ensures
        check_outcome(r) == rows_check(name@, path@, len as nat),
{
    if len > 0 {
        return Ok(());
    }
    let mut message = owned(name);
    message.append(" are required");
    Err(CodecDiagnostic::error("IR_FIELD_REQUIRED", path, message))
}


/// Checks the shape of a fixture envelope.
pub fn validate_fixture_shape(fixture: &FixtureEnvelope) -> (r: CodecResult<()>)
    ensures
        check_outcome(r) == fixture_shape(fixture@),
{
    let r = require_version(fixture.fixture_schema_version, "$.fixture_schema_version");
    if r.is_err() {
        return r;
    }
    let r = require_non_empty("fixture_id", "$.fixture_id", fixture.fixture_id.as_str());
    if r.is_err() {
        return r;
    }
    let r = require_non_empty("contract_row_id", "$.contract_row_id", fixture.contract_row_id.as_str());
    if r.is_err() {
        return r;
    }
    let r = require_non_empty("surface", "$.surface", fixture.surface.as_str());
    if r.is_err() {
        return r;
    }
    let r = require_non_empty_rows("fixture tags", "$.fixture_tags", fixture.fixture_tags.len());
    if r.is_err() {
        return r;
    }
    let r = require_non_empty_rows("platform targets", "$.platform_targets", fixture.platform_targets.len());
    if r.is_err() {
        return r;
    }
    let r = require_non_empty_rows("owner PRs", "$.metadata.owner_prs", fixture.metadata.owner_prs.len());
    if r.is_err() {
        return r;
    }
    let r = require_non_empty_rows("proof PRs", "$.metadata.proof_prs", fixture.metadata.proof_prs.len());
    if r.is_err() {
        return r;
    }
    let r = require_non_empty("serialized_artifact_path", "$.metadata.serialized_artifact_path", fixture.metadata.serialized_artifact_path.as_str());
    if r.is_err() {
        return r;
    }
    let r = require_non_empty("contract_surface", "$.ir_debug.contract_surface", fixture.ir_debug.contract_surface.as_str());
    if r.is_err() {
        return r;
    }
    let r = require_non_empty("root_node_id", "$.ir_debug.root_node_id", fixture.ir_debug.root_node_id.as_str());
    if r.is_err() {
        return r;
    }
    let r = require_non_empty("component_id", "$.ir_debug.component_id", fixture.ir_debug.component_id.as_str());
    if r.is_err() {
        return r;
    }
    require_non_empty_rows("coverage tokens", "$.ir_debug.coverage_tokens", fixture.ir_debug.coverage_tokens.len())
}

fn validate_invalid_entry(fixture: &InvalidFixture) -> (r: CodecResult<()>)
    ensures
        check_outcome(r) == invalid_entry_shape(fixture@),
{
    let r = require_non_empty("fixture_id", "$.invalid_fixtures[].fixture_id", fixture.fixture_id.as_str());
    if r.is_err() {
        return r;
    }
    let r = require_non_empty(
        "diagnostic_family",
        "$.invalid_fixtures[].diagnostic_family",
        fixture.diagnostic_family.as_str(),
    );
    if r.is_err() {
        return r;
    }
    let r = require_non_empty(
        "expected diagnostic code",
        "$.invalid_fixtures[].expected_diagnostic.code",
        fixture.expected_diagnostic.code.as_str(),
    );
    if r.is_err() {
        return r;
    }
    require_non_empty(
        "expected diagnostic path",
        "$.invalid_fixtures[].expected_diagnostic.path",
        fixture.expected_diagnostic.path.as_str(),
    )
}

/// Checks the shape of an invalid fixture manifest.
pub fn validate_invalid_manifest_shape(manifest: &InvalidFixtureManifest) -> (r: CodecResult<()>)
    ensures
        check_outcome(r) == invalid_manifest_shape(manifest@),
{
    let r = require_version(manifest.schema_version, "$.schema_version");
    if r.is_err() {
        return r;
    }
    let r = require_non_empty("owner_pr", "$.owner_pr", manifest.owner_pr.as_str());
    if r.is_err() {
        return r;
    }
    let r = require_non_empty("source_ir_module", "$.source_ir_module", manifest.source_ir_module.as_str());
    if r.is_err() {
        return r;
    }
    let r = require_non_empty("invalid_fixture_id_format", "$.invalid_fixture_id_format", manifest.invalid_fixture_id_format.as_str());
    if r.is_err() {
        return r;
    }
    let r = require_non_empty_rows("invalid fixtures", "$.invalid_fixtures", manifest.invalid_fixtures.len());
    if r.is_err() {
        return r;
    }
    let ghost all = manifest@.invalid_fixtures;
    assert(all.skip(0) =~= all);
    let mut i: usize = 0;
    while i < manifest.invalid_fixtures.len()
        invariant
            i <= manifest.invalid_fixtures@.len(),
            all == manifest@.invalid_fixtures,
            invalid_manifest_shape(manifest@) == invalid_entries_shape(all),
            invalid_entries_shape(all) == invalid_entries_shape(all.skip(i as int)),
        decreases manifest.invalid_fixtures@.len() - i,
    {
        let r = validate_invalid_entry(&manifest.invalid_fixtures[i]);
        proof {
            assert(all.skip(i as int).drop_first() =~= all.skip(i + 1));
            assert(all.skip(i as int)[0] == manifest.invalid_fixtures@[i as int]@);
        }
        if r.is_err() {
            return r;
        }
        i = i + 1;
    }
    proof {
        assert(all.skip(i as int).len() == 0);
    }
    Ok(())
}


/// The diagnostic for JSON text that does not parse into the expected document.
pub open spec fn json_parse_error(message: Seq<char>) -> CodecDiagnosticView {
    codec_error("IR_JSON_PARSE_ERROR"@, "$"@, message)
}

/// The diagnostic for a document that could not be rendered as JSON.
pub open spec fn json_encode_error(message: Seq<char>) -> CodecDiagnosticView {
    codec_error("IR_JSON_ENCODE_ERROR"@, "$"@, message)
}

/// The JSON debug form of a document: its pretty rendering and a final newline.
pub open spec fn stable_json_text(rendered: Seq<char>) -> Seq<char> {
    rendered + "\n"@
}

/// Finishes decoding a fixture from its JSON debug form: `parsed` is what
/// parsing the text gave (the document, or the parser's message), and the
/// document must then have the fixture shape.
pub fn decode_fixture(parsed: Result<FixtureEnvelope, String>) -> (r: CodecResult<FixtureEnvelope>)
    ensures
        match parsed {
            Err(message) => r matches Err(d) && d@ == json_parse_error(message@),
            Ok(fixture) => match fixture_shape(fixture@) {
                Err(e) => r matches Err(d) && d@ == e,
                Ok(_) => r matches Ok(f) && f == fixture,
            },
        },
{
    match parsed {
        Err(message) => Err(CodecDiagnostic::error("IR_JSON_PARSE_ERROR", "$", message)),
        Ok(fixture) => {
            match validate_fixture_shape(&fixture) {
                Err(d) => Err(d),
                Ok(_) => Ok(fixture),
            }
        },
    }
}

/// Encodes a fixture in its JSON debug form: the fixture must have the
/// fixture shape; `rendered` is its pretty JSON rendering (or the
/// renderer's message), which gets a final newline.
pub fn encode_fixture(fixture: &FixtureEnvelope, rendered: Result<String, String>) -> (r: CodecResult<String>)
    ensures
        match fixture_shape(fixture@) {
            Err(e) => r matches Err(d) && d@ == e,
            Ok(_) => match rendered {
                Ok(json) => r matches Ok(s) && s@ == stable_json_text(json@),
                Err(message) => r matches Err(d) && d@ == json_encode_error(message@),
            },
        },
{
    match validate_fixture_shape(fixture) {
        Err(d) => Err(d),
        Ok(_) => stable_json(rendered),
    }
}

fn stable_json(rendered: Result<String, String>) -> (r: CodecResult<String>)
    ensures
        match rendered {
            Ok(json) => r matches Ok(s) && s@ == stable_json_text(json@),
            Err(message) => r matches Err(d) && d@ == json_encode_error(message@),
        },
{
    match rendered {
        Ok(json) => {
            let mut text = json;
            text.append("\n");
            Ok(text)
        },
        Err(message) => Err(CodecDiagnostic::error("IR_JSON_ENCODE_ERROR", "$", message)),
    }
}

/// Finishes decoding a contract document from its JSON form.
pub fn decode_contract(parsed: Result<ContractDocument, String>) -> (r: CodecResult<ContractDocument>)
    ensures
        match parsed {
            Err(message) => r matches Err(d) && d@ == json_parse_error(message@),
            Ok(contract) => match contract_shape(contract) {
                Err(e) => r matches Err(d) && d@ == e,
                Ok(_) => r matches Ok(c) && c == contract,
            },
        },
{
    match parsed {
        Err(message) => Err(CodecDiagnostic::error("IR_JSON_PARSE_ERROR", "$", message)),
        Ok(contract) => {
            let r = require_version(contract.schema_version, "$.schema_version");
            if let Err(d) = r {
                return Err(d);
            }
            let r = require_non_empty_rows("contract rows", "$.rows", contract.rows.len());
            if let Err(d) = r {
                return Err(d);
            }
            Ok(contract)
        },
    }
}

/// Finishes decoding a fixture manifest from its JSON form.
pub fn decode_fixture_manifest(parsed: Result<FixtureManifest, String>) -> (r: CodecResult<FixtureManifest>)
    ensures
        match parsed {
            Err(message) => r matches Err(d) && d@ == json_parse_error(message@),
            Ok(manifest) => match manifest_shape(manifest) {
                Err(e) => r matches Err(d) && d@ == e,
                Ok(_) => r matches Ok(m) && m == manifest,
            },
        },
{
    match parsed {
        Err(message) => Err(CodecDiagnostic::error("IR_JSON_PARSE_ERROR", "$", message)),
        Ok(manifest) => {
            let r = require_version(manifest.schema_version, "$.schema_version");
            if let Err(d) = r {
                return Err(d);
            }
            let r = require_non_empty("owner_pr", "$.owner_pr", manifest.owner_pr.as_str());
            if let Err(d) = r {
                return Err(d);
            }
            let r = require_non_empty_rows("fixtures", "$.fixtures", manifest.fixtures.len());
            if let Err(d) = r {
                return Err(d);
            }
            Ok(manifest)
        },
    }
}

/// Finishes decoding an invalid fixture manifest from its JSON form.
pub fn decode_invalid_manifest(parsed: Result<InvalidFixtureManifest, String>) -> (r: CodecResult<
    InvalidFixtureManifest,
>)
    ensures
        match parsed {
            Err(message) => r matches Err(d) && d@ == json_parse_error(message@),
            Ok(manifest) => match invalid_manifest_shape(manifest@) {
                Err(e) => r matches Err(d) && d@ == e,
                Ok(_) => r matches Ok(m) && m == manifest,
            },
        },
{
    match parsed {
        Err(message) => Err(CodecDiagnostic::error("IR_JSON_PARSE_ERROR", "$", message)),
        Ok(manifest) => {
            match validate_invalid_manifest_shape(&manifest) {
                Err(d) => Err(d),
                Ok(_) => Ok(manifest),
            }
        },
    }
}

/// Encodes an invalid fixture manifest in its JSON form: the manifest must
/// have its shape; `rendered` is its pretty JSON rendering (or the
/// renderer's message), which gets a final newline.
pub fn encode_invalid_manifest(manifest: &InvalidFixtureManifest, rendered: Result<String, String>) -> (r:
    CodecResult<String>)
    ensures
        match invalid_manifest_shape(manifest@) {
            Err(e) => r matches Err(d) && d@ == e,
            Ok(_) => match rendered {
                Ok(json) => r matches Ok(s) && s@ == stable_json_text(json@),
                Err(message) => r matches Err(d) && d@ == json_encode_error(message@),
            },
        },
{
    match validate_invalid_manifest_shape(manifest) {
        Err(d) => Err(d),
        Ok(_) => stable_json(rendered),
    }
}

} // verus!
