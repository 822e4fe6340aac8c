//! The binary (postcard) form of fixture envelopes and invalid fixture
//! manifests, with the schema and wire versions that frame them.

use vstd::prelude::*;

use crate::codec::diagnostics::{
    check_outcome, codec_error, then_check, CodecDiagnostic, CodecDiagnosticView, CodecResult,
    DiagnosticSeverity,
};
use crate::codec::json_debug::{
    fixture_shape, invalid_manifest_shape, validate_fixture_shape, validate_invalid_manifest_shape,
    FixtureEnvelope, FixtureEnvelopeView, FixtureMetadata, InvalidDiagnostic, InvalidFixture,
    InvalidFixtureManifest, InvalidFixtureManifestView, InvalidFixtureView, IrDebugEnvelope,
    SchemaVersion,
};
use crate::codec::{CURRENT_BINARY_WIRE_VERSION, CURRENT_SCHEMA_VERSION};
use crate::text::{copy_opt_text, copy_texts, decimal, opt_text, owned, push_decimal, texts};

verus! {

#[derive(Clone, Debug, PartialEq, Eq)]
pub struct BinaryFixtureEnvelope {
    pub schema_version: u16,
    pub wire_version: u16,
    pub payload: BinaryFixturePayload,
}

#[derive(Clone, Debug, PartialEq, Eq)]
pub struct BinaryFixturePayload {
    pub fixture_schema_version: u16,
    pub fixture_id: String,
    pub contract_row_id: String,
    pub surface: String,
    pub fixture_tags: Vec<String>,
    pub platform_targets: Vec<String>,
    pub metadata: FixtureMetadata,
    pub ir_debug: BinaryIrDebugEnvelope,
}

#[derive(Clone, Debug, PartialEq, Eq)]
pub struct BinaryIrDebugEnvelope {
    pub schema_version: SchemaVersion,
    pub contract_surface: String,
    pub root_node_id: String,
    pub component_id: String,
    pub source_span: Option<String>,
    pub coverage_tokens: Vec<String>,
}

#[derive(Clone, Debug, PartialEq, Eq)]
pub struct BinaryInvalidManifestEnvelope {
    pub schema_version: u16,
    pub wire_version: u16,
    pub payload: InvalidFixtureManifest,
}

impl View for BinaryFixturePayload {
    type V = FixtureEnvelopeView;

    open spec fn view(&self) -> FixtureEnvelopeView {
        FixtureEnvelopeView {
            fixture_schema_version: self.fixture_schema_version,
            fixture_id: self.fixture_id@,
            contract_row_id: self.contract_row_id@,
            surface: self.surface@,
            fixture_tags: texts(self.fixture_tags@),
            platform_targets: texts(self.platform_targets@),
            owner_prs: texts(self.metadata.owner_prs@),
            proof_prs: texts(self.metadata.proof_prs@),
            serialized_artifact_path: self.metadata.serialized_artifact_path@,
            schema_id: self.ir_debug.schema_version.id@,
            schema_major: self.ir_debug.schema_version.major,
            schema_minor: self.ir_debug.schema_version.minor,
            contract_surface: self.ir_debug.contract_surface@,
            root_node_id: self.ir_debug.root_node_id@,
            component_id: self.ir_debug.component_id@,
            source_span: opt_text(self.ir_debug.source_span),
            coverage_tokens: texts(self.ir_debug.coverage_tokens@),
        }
    }
}

/// A binary fixture envelope as plain values.
pub struct BinaryFixtureEnvelopeView {
    pub schema_version: u16,
    pub wire_version: u16,
    pub payload: FixtureEnvelopeView,
}

impl View for BinaryFixtureEnvelope {
    type V = BinaryFixtureEnvelopeView;

    open spec fn view(&self) -> BinaryFixtureEnvelopeView {
        BinaryFixtureEnvelopeView {
            schema_version: self.schema_version,
            wire_version: self.wire_version,
            payload: self.payload@,
        }
    }
}

/// A binary invalid manifest envelope as plain values.
pub struct BinaryInvalidManifestEnvelopeView {
    pub schema_version: u16,
    pub wire_version: u16,
    pub payload: InvalidFixtureManifestView,
}

impl View for BinaryInvalidManifestEnvelope {
    type V = BinaryInvalidManifestEnvelopeView;

    open spec fn view(&self) -> BinaryInvalidManifestEnvelopeView {
        BinaryInvalidManifestEnvelopeView {
            schema_version: self.schema_version,
            wire_version: self.wire_version,
            payload: self.payload@,
        }
    }
}

impl BinaryFixturePayload {
    /// The binary payload that carries a fixture.
    pub fn from_fixture(fixture: &FixtureEnvelope) -> (r: Self)
        ensures
            r@ == fixture@,
    {
        BinaryFixturePayload {
            fixture_schema_version: fixture.fixture_schema_version,
            fixture_id: fixture.fixture_id.clone(),
            contract_row_id: fixture.contract_row_id.clone(),
            surface: fixture.surface.clone(),
            fixture_tags: copy_texts(&fixture.fixture_tags),
            platform_targets: copy_texts(&fixture.platform_targets),
            metadata: FixtureMetadata {
                owner_prs: copy_texts(&fixture.metadata.owner_prs),
                proof_prs: copy_texts(&fixture.metadata.proof_prs),
                serialized_artifact_path: fixture.metadata.serialized_artifact_path.clone(),
            },
            ir_debug: BinaryIrDebugEnvelope {
                schema_version: SchemaVersion {
                    id: fixture.ir_debug.schema_version.id.clone(),
                    major: fixture.ir_debug.schema_version.major,
                    minor: fixture.ir_debug.schema_version.minor,
                },
                contract_surface: fixture.ir_debug.contract_surface.clone(),
                root_node_id: fixture.ir_debug.root_node_id.clone(),
                component_id: fixture.ir_debug.component_id.clone(),
                source_span: copy_opt_text(&fixture.ir_debug.source_span),
                coverage_tokens: copy_texts(&fixture.ir_debug.coverage_tokens),
            },
        }
    }
}

impl FixtureEnvelope {
    /// The fixture that a binary payload carries.
    pub fn from_payload(payload: BinaryFixturePayload) -> (r: Self)
        ensures
            r@ == payload@,
    {
        FixtureEnvelope {
            fixture_schema_version: payload.fixture_schema_version,
            fixture_id: payload.fixture_id,
            contract_row_id: payload.contract_row_id,
            surface: payload.surface,
            fixture_tags: payload.fixture_tags,
            platform_targets: payload.platform_targets,
            metadata: payload.metadata,
            ir_debug: IrDebugEnvelope {
                schema_version: payload.ir_debug.schema_version,
                contract_surface: payload.ir_debug.contract_surface,
                root_node_id: payload.ir_debug.root_node_id,
                component_id: payload.ir_debug.component_id,
                source_span: payload.ir_debug.source_span,
                coverage_tokens: payload.ir_debug.coverage_tokens,
            },
        }
    }
}

/// The tuple that postcard writes for a binary fixture envelope: postcard
/// writes a struct as the tuple of its fields, in order.
pub type FixtureWire = (
    u16,
    u16,
    (
        u16,
        String,
        String,
        String,
        Vec<String>,
        Vec<String>,
        (Vec<String>, Vec<String>, String),
        ((String, u16, u16), String, String, String, Option<String>, Vec<String>),
    ),
);

/// The tuple that postcard writes for an invalid fixture entry; the
/// severity is written as the index of its variant.
pub type InvalidFixtureWire = (String, String, (String, String, u32));

/// The tuple that postcard writes for a binary invalid manifest envelope.
pub type InvalidManifestWire = (u16, u16, (u16, String, String, String, Vec<InvalidFixtureWire>));

/// An invalid fixture entry as written on the wire.
pub struct InvalidFixtureWireView {
    pub fixture_id: Seq<char>,
    pub diagnostic_family: Seq<char>,
    pub code: Seq<char>,
    pub path: Seq<char>,
    pub severity_index: u32,
}

/// A binary invalid manifest envelope as written on the wire.
pub struct InvalidManifestWireView {
    pub schema_version: u16,
    pub wire_version: u16,
    pub payload_schema_version: u16,
    pub owner_pr: Seq<char>,
    pub source_ir_module: Seq<char>,
    pub invalid_fixture_id_format: Seq<char>,
    pub invalid_fixtures: Seq<InvalidFixtureWireView>,
}

/// The plain values of a fixture wire tuple.
pub open spec fn fixture_wire_view(w: FixtureWire) -> BinaryFixtureEnvelopeView {
    BinaryFixtureEnvelopeView {
        schema_version: w.0,
        wire_version: w.1,
        payload: FixtureEnvelopeView {
            fixture_schema_version: w.2.0,
            fixture_id: w.2.1@,
            contract_row_id: w.2.2@,
            surface: w.2.3@,
            fixture_tags: texts(w.2.4@),
            platform_targets: texts(w.2.5@),
            owner_prs: texts(w.2.6.0@),
            proof_prs: texts(w.2.6.1@),
            serialized_artifact_path: w.2.6.2@,
            schema_id: w.2.7.0.0@,
            schema_major: w.2.7.0.1,
            schema_minor: w.2.7.0.2,
            contract_surface: w.2.7.1@,
            root_node_id: w.2.7.2@,
            component_id: w.2.7.3@,
            source_span: opt_text(w.2.7.4),
            coverage_tokens: texts(w.2.7.5@),
        },
    }
}

/// The plain values of an invalid fixture wire tuple.
pub open spec fn invalid_fixture_wire_view(w: InvalidFixtureWire) -> InvalidFixtureWireView {
    InvalidFixtureWireView {
        fixture_id: w.0@,
        diagnostic_family: w.1@,
        code: w.2.0@,
        path: w.2.1@,
        severity_index: w.2.2,
    }
}

/// The plain values of an invalid manifest wire tuple.
pub open spec fn invalid_manifest_wire_view(w: InvalidManifestWire) -> InvalidManifestWireView {
    InvalidManifestWireView {
        schema_version: w.0,
        wire_version: w.1,
        payload_schema_version: w.2.0,
        owner_pr: w.2.1@,
        source_ir_module: w.2.2@,
        invalid_fixture_id_format: w.2.3@,
        invalid_fixtures: w.2.4@.map_values(|f: InvalidFixtureWire| invalid_fixture_wire_view(f)),
    }
}

/// The bytes that `postcard::to_allocvec` writes for a fixture envelope.
pub uninterp spec fn postcard_fixture_bytes(envelope: BinaryFixtureEnvelopeView) -> Seq<u8>;

/// The fixture envelope that `postcard::from_bytes` reads from bytes, or
/// `None` where it fails.
pub uninterp spec fn postcard_fixture_value(bytes: Seq<u8>) -> Option<BinaryFixtureEnvelopeView>;

/// The bytes that `postcard::to_allocvec` writes for an invalid manifest
/// envelope.
pub uninterp spec fn postcard_invalid_manifest_bytes(envelope: InvalidManifestWireView) -> Seq<u8>;

/// The invalid manifest envelope that `postcard::from_bytes` reads from
/// bytes, or the message of its error where it fails.
pub uninterp spec fn postcard_invalid_manifest_value(bytes: Seq<u8>) -> Result<
    InvalidManifestWireView,
    Seq<char>,
>;

/// A successful read of an invalid manifest envelope.
pub open spec fn read_back(w: InvalidManifestWireView) -> Result<InvalidManifestWireView, Seq<char>> {
    Ok(w)
}

/// The head of a binary invalid manifest envelope as postcard writes it: the
/// schema and wire versions, then the payload's schema version, owner PR,
/// source module and fixture ID format.
pub type InvalidManifestHeadWire = (u16, u16, u16, String, String, String);

/// The bytes that remain after `postcard::take_from_bytes` reads the head of
/// an invalid manifest envelope, or `None` where it fails.
pub uninterp spec fn postcard_manifest_head_rest(bytes: Seq<u8>) -> Option<Seq<u8>>;

/// The length that `postcard::take_from_bytes` reads, with the bytes that
/// remain, or `None` where it fails.
pub uninterp spec fn postcard_length_step(bytes: Seq<u8>) -> Option<(usize, Seq<u8>)>;

/// The severity index of the invalid fixture entry that
/// `postcard::take_from_bytes` reads, with the bytes that remain, or `None`
/// where it fails.
pub uninterp spec fn postcard_invalid_fixture_step(bytes: Seq<u8>) -> Option<(u32, Seq<u8>)>;

/// Writes a fixture envelope with `postcard::to_allocvec`.  Claimed: writing
/// into the growable `Vec` flavor does not fail for these tuples of integers,
/// strings, lists and options; the bytes are the ones named by
/// `postcard_fixture_bytes`, and `postcard::from_bytes` reads the same
/// envelope back from them.
#[verifier::external_body]
fn postcard_write_fixture(wire: &FixtureWire) -> (r: Result<Vec<u8>, String>)
    ensures
        r is Ok,
        r->Ok_0@ == postcard_fixture_bytes(fixture_wire_view(*wire)),
        postcard_fixture_value(r->Ok_0@) == Some(fixture_wire_view(*wire)),
{
    postcard::to_allocvec(wire).map_err(|err| err.to_string())
}

/// Reads a fixture envelope with `postcard::from_bytes`.  Claimed: the value
/// is the one named by `postcard_fixture_value`; on failure, postcard's message.
#[verifier::external_body]
fn postcard_read_fixture(bytes: &[u8]) -> (r: Result<FixtureWire, String>)
    ensures
        match r {
            Ok(wire) => postcard_fixture_value(bytes@) == Some(fixture_wire_view(wire)),
            Err(_) => postcard_fixture_value(bytes@) is None,
        },
{
    postcard::from_bytes::<FixtureWire>(bytes).map_err(|err| err.to_string())
}

/// Writes an invalid manifest envelope with `postcard::to_allocvec`.
/// Claimed: writing into the growable `Vec` flavor does not fail for these
/// tuples of integers, strings and lists; the bytes are the ones named by
/// `postcard_invalid_manifest_bytes`, and `postcard::from_bytes` reads the
/// same envelope back from them.
#[verifier::external_body]
fn postcard_write_invalid_manifest(wire: &InvalidManifestWire) -> (r: Result<Vec<u8>, String>)
    ensures
        r is Ok,
        r->Ok_0@ == postcard_invalid_manifest_bytes(invalid_manifest_wire_view(*wire)),
        postcard_invalid_manifest_value(r->Ok_0@) == read_back(invalid_manifest_wire_view(*wire)),
{
    postcard::to_allocvec(wire).map_err(|err| err.to_string())
}

/// Reads an invalid manifest envelope with `postcard::from_bytes`.  Claimed:
/// the value, or on failure the error's message, is the one named by
/// `postcard_invalid_manifest_value`.
#[verifier::external_body]
fn postcard_read_invalid_manifest(bytes: &[u8]) -> (r: Result<InvalidManifestWire, String>)
    ensures
        match r {
            Ok(wire) => postcard_invalid_manifest_value(bytes@) == Ok::<
                InvalidManifestWireView,
                Seq<char>,
            >(invalid_manifest_wire_view(wire)),
            Err(message) => postcard_invalid_manifest_value(bytes@) == Err::<
                InvalidManifestWireView,
                Seq<char>,
            >(message@),
        },
{
    postcard::from_bytes::<InvalidManifestWire>(bytes).map_err(|err| err.to_string())
}

/// Reads the head of an invalid manifest envelope with
/// `postcard::take_from_bytes`.  Claimed: the bytes that remain are the ones
/// named by `postcard_manifest_head_rest`.
#[verifier::external_body]
fn postcard_take_manifest_head(bytes: &[u8]) -> (r: Option<Vec<u8>>)
    ensures
        match r {
            Some(rest) => postcard_manifest_head_rest(bytes@) == Some(rest@),
            None => postcard_manifest_head_rest(bytes@) is None,
        },
{
    postcard::take_from_bytes::<InvalidManifestHeadWire>(bytes).ok().map(|(_, rest)| rest.to_vec())
}

/// Reads a length with `postcard::take_from_bytes`.  Claimed: the length
/// and the bytes that remain are the ones named by `postcard_length_step`.
#[verifier::external_body]
fn postcard_take_length(bytes: &[u8]) -> (r: Option<(usize, Vec<u8>)>)
    ensures
        match r {
            Some((n, rest)) => postcard_length_step(bytes@) == Some((n, rest@)),
            None => postcard_length_step(bytes@) is None,
        },
{
    postcard::take_from_bytes::<usize>(bytes).ok().map(|(n, rest)| (n, rest.to_vec()))
}

/// Reads an invalid fixture entry with `postcard::take_from_bytes`.
/// Claimed: its severity index and the bytes that remain are the ones named
/// by `postcard_invalid_fixture_step`.
#[verifier::external_body]
fn postcard_take_invalid_fixture(bytes: &[u8]) -> (r: Option<(u32, Vec<u8>)>)
    ensures
        match r {
            Some((index, rest)) => postcard_invalid_fixture_step(bytes@) == Some((index, rest@)),
            None => postcard_invalid_fixture_step(bytes@) is None,
        },
{
    postcard::take_from_bytes::<InvalidFixtureWire>(bytes).ok().map(|(f, rest)| (f.2.2, rest.to_vec()))
}

/// Whether, reading `n` invalid fixture entries one after the other, an
/// entry whose severity index names no severity comes before any entry that
/// fails to read.
pub open spec fn bad_severity_among(bytes: Seq<u8>, n: nat) -> bool
    decreases n,
{
    if n == 0 {
        false
    } else {
        match postcard_invalid_fixture_step(bytes) {
            None => false,
            Some((index, rest)) => if severity_at(index) is None {
                true
            } else {
                bad_severity_among(rest, (n - 1) as nat)
            },
        }
    }
}

/// Whether, reading an invalid manifest envelope field by field, a severity
/// index that names no severity is met before anything fails to read: the
/// reading then stops there.
pub open spec fn bad_severity_comes_first(bytes: Seq<u8>) -> bool {
    match postcard_manifest_head_rest(bytes) {
        None => false,
        Some(rest) => match postcard_length_step(rest) {
            None => false,
            Some((n, entries)) => bad_severity_among(entries, n as nat),
        },
    }
}

/// The message with which reading bytes as an invalid manifest envelope
/// fails: the message for a severity index that names no severity where one
/// is met first, else postcard's message.
pub open spec fn corrupt_manifest_message(bytes: Seq<u8>) -> Seq<char> {
    match postcard_invalid_manifest_value(bytes) {
        Err(message) => if bad_severity_comes_first(bytes) {
            "Serde Deserialization Error"@
        } else {
            message
        },
        Ok(_) => "Serde Deserialization Error"@,
    }
}

fn severity_fails_first(bytes: &[u8]) -> (r: bool)
    ensures
        r == bad_severity_comes_first(bytes@),
{
    let rest = match postcard_take_manifest_head(bytes) {
        None => return false,
        Some(rest) => rest,
    };
    let (n, entries) = match postcard_take_length(rest.as_slice()) {
        None => return false,
        Some(step) => step,
    };
    let ghost all = entries@;
    let mut remaining = entries;
    let mut k: usize = 0;
    while k < n
        invariant
            k <= n,
            bad_severity_comes_first(bytes@) == bad_severity_among(all, n as nat),
            bad_severity_among(all, n as nat) == bad_severity_among(remaining@, (n - k) as nat),
        decreases n - k,
    {
        match postcard_take_invalid_fixture(remaining.as_slice()) {
            None => return false,
            Some((index, next)) => {
                if read_severity(index).is_none() {
                    return true;
                }
                remaining = next;
            },
        }
        k = k + 1;
    }
    false
}

/// The index under which postcard writes a severity: its variant's position.
pub open spec fn severity_index(severity: DiagnosticSeverity) -> u32 {
    match severity {
        DiagnosticSeverity::Info => 0,
        DiagnosticSeverity::Warning => 1,
        DiagnosticSeverity::Error => 2,
    }
}

/// The severity written under an index, if any.
pub open spec fn severity_at(index: u32) -> Option<DiagnosticSeverity> {
    if index == 0 {
        Some(DiagnosticSeverity::Info)
    } else if index == 1 {
        Some(DiagnosticSeverity::Warning)
    } else if index == 2 {
        Some(DiagnosticSeverity::Error)
    } else {
        None
    }
}

/// An invalid fixture entry as written on the wire.
pub open spec fn invalid_fixture_to_wire(f: InvalidFixtureView) -> InvalidFixtureWireView {
    InvalidFixtureWireView {
        fixture_id: f.fixture_id,
        diagnostic_family: f.diagnostic_family,
        code: f.code,
        path: f.path,
        severity_index: severity_index(f.severity),
    }
}

/// An invalid fixture entry read from the wire, with a valid severity index.
pub open spec fn invalid_fixture_from_wire(f: InvalidFixtureWireView) -> InvalidFixtureView {
    InvalidFixtureView {
        fixture_id: f.fixture_id,
        diagnostic_family: f.diagnostic_family,
        code: f.code,
        path: f.path,
        severity: severity_at(f.severity_index)->0,
    }
}

/// A binary invalid manifest envelope as written on the wire.
pub open spec fn invalid_manifest_to_wire(
    schema_version: u16,
    wire_version: u16,
    m: InvalidFixtureManifestView,
) -> InvalidManifestWireView {
    InvalidManifestWireView {
        schema_version,
        wire_version,
        payload_schema_version: m.schema_version,
        owner_pr: m.owner_pr,
        source_ir_module: m.source_ir_module,
        invalid_fixture_id_format: m.invalid_fixture_id_format,
        invalid_fixtures: m.invalid_fixtures.map_values(|f: InvalidFixtureView| invalid_fixture_to_wire(f)),
    }
}

/// The binary invalid manifest envelope that a wire value denotes, if every
/// severity index names a severity.
pub open spec fn invalid_manifest_from_wire(w: InvalidManifestWireView) -> Option<
    BinaryInvalidManifestEnvelopeView,
> {
    if forall|i: int| 0 <= i < w.invalid_fixtures.len() ==> (#[trigger] severity_at(
        w.invalid_fixtures[i].severity_index,
    )) is Some {
        Some(
            BinaryInvalidManifestEnvelopeView {
                schema_version: w.schema_version,
                wire_version: w.wire_version,
                payload: InvalidFixtureManifestView {
                    schema_version: w.payload_schema_version,
                    owner_pr: w.owner_pr,
                    source_ir_module: w.source_ir_module,
                    invalid_fixture_id_format: w.invalid_fixture_id_format,
                    invalid_fixtures: w.invalid_fixtures.map_values(
                        |f: InvalidFixtureWireView| invalid_fixture_from_wire(f),
                    ),
                },
            },
        )
    } else {
        None
    }
}

fn fixture_wire(envelope: BinaryFixtureEnvelope) -> (w: FixtureWire)
    ensures
        fixture_wire_view(w) == envelope@,
{
    let p = envelope.payload;
    let d = p.ir_debug;
    (
        envelope.schema_version,
        envelope.wire_version,
        (
            p.fixture_schema_version,
            p.fixture_id,
            p.contract_row_id,
            p.surface,
            p.fixture_tags,
            p.platform_targets,
            (p.metadata.owner_prs, p.metadata.proof_prs, p.metadata.serialized_artifact_path),
            (
                (d.schema_version.id, d.schema_version.major, d.schema_version.minor),
                d.contract_surface,
                d.root_node_id,
                d.component_id,
                d.source_span,
                d.coverage_tokens,
            ),
        ),
    )
}

fn envelope_from_wire(w: FixtureWire) -> (e: BinaryFixtureEnvelope)
    ensures
        e@ == fixture_wire_view(w),
{
    let (schema_version, wire_version, payload) = w;
    let (
        fixture_schema_version,
        fixture_id,
        contract_row_id,
        surface,
        fixture_tags,
        platform_targets,
        metadata,
        ir_debug,
    ) = payload;
    let (owner_prs, proof_prs, serialized_artifact_path) = metadata;
    let (schema, contract_surface, root_node_id, component_id, source_span, coverage_tokens) =
        ir_debug;
    let (id, major, minor) = schema;
    BinaryFixtureEnvelope {
        schema_version,
        wire_version,
        payload: BinaryFixturePayload {
            fixture_schema_version,
            fixture_id,
            contract_row_id,
            surface,
            fixture_tags,
            platform_targets,
            metadata: FixtureMetadata { owner_prs, proof_prs, serialized_artifact_path },
            ir_debug: BinaryIrDebugEnvelope {
                schema_version: SchemaVersion { id, major, minor },
                contract_surface,
                root_node_id,
                component_id,
                source_span,
                coverage_tokens,
            },
        },
    }
}

fn write_severity(severity: DiagnosticSeverity) -> (r: u32)
    ensures
        r == severity_index(severity),
{
    match severity {
        DiagnosticSeverity::Info => 0,
        DiagnosticSeverity::Warning => 1,
        DiagnosticSeverity::Error => 2,
    }
}

fn read_severity(index: u32) -> (r: Option<DiagnosticSeverity>)
    ensures
        r == severity_at(index),
{
    if index == 0 {
        Some(DiagnosticSeverity::Info)
    } else if index == 1 {
        Some(DiagnosticSeverity::Warning)
    } else if index == 2 {
        Some(DiagnosticSeverity::Error)
    } else {
        None
    }
}

fn invalid_manifest_wire(schema_version: u16, wire_version: u16, manifest: &InvalidFixtureManifest) -> (w:
    InvalidManifestWire)
    ensures
        invalid_manifest_wire_view(w) == invalid_manifest_to_wire(
            schema_version,
            wire_version,
            manifest@,
        ),
{
    let mut fixtures: Vec<InvalidFixtureWire> = Vec::new();
    let mut i: usize = 0;
    while i < manifest.invalid_fixtures.len()
        invariant
            i <= manifest.invalid_fixtures@.len(),
            fixtures@.len() == i,
            forall|j: int|
                0 <= j < i ==> invalid_fixture_wire_view(#[trigger] fixtures@[j])
                    == invalid_fixture_to_wire(manifest.invalid_fixtures@[j]@),
        decreases manifest.invalid_fixtures@.len() - i,
    {
        let f = &manifest.invalid_fixtures[i];
        fixtures.push(
            (
                f.fixture_id.clone(),
                f.diagnostic_family.clone(),
                (
                    f.expected_diagnostic.code.clone(),
                    f.expected_diagnostic.path.clone(),
                    write_severity(f.expected_diagnostic.severity),
                ),
            ),
        );
        i = i + 1;
    }
    let w = (
        schema_version,
        wire_version,
        (
            manifest.schema_version,
            manifest.owner_pr.clone(),
            manifest.source_ir_module.clone(),
            manifest.invalid_fixture_id_format.clone(),
            fixtures,
        ),
    );
    assert(invalid_manifest_wire_view(w).invalid_fixtures =~= invalid_manifest_to_wire(
        schema_version,
        wire_version,
        manifest@,
    ).invalid_fixtures);
    w
}

fn invalid_manifest_from_wire_value(w: InvalidManifestWire) -> (r: Option<BinaryInvalidManifestEnvelope>)
    ensures
        match invalid_manifest_from_wire(invalid_manifest_wire_view(w)) {
            Some(v) => r matches Some(e) && e@ == v,
            None => r is None,
        },
{
    let ghost wv = invalid_manifest_wire_view(w);
    let (schema_version, wire_version, payload) = w;
    let (payload_schema_version, owner_pr, source_ir_module, invalid_fixture_id_format, wires) =
        payload;
    let mut fixtures: Vec<InvalidFixture> = Vec::new();
    let mut i: usize = 0;
    while i < wires.len()
        invariant
            i <= wires@.len(),
            wv == invalid_manifest_wire_view(w),
            wv.invalid_fixtures == wires@.map_values(|f: InvalidFixtureWire| invalid_fixture_wire_view(f)),
            fixtures@.len() == i,
            forall|j: int| 0 <= j < i ==> (#[trigger] severity_at(wv.invalid_fixtures[j].severity_index)) is Some,
            forall|j: int|
                0 <= j < i ==> (#[trigger] fixtures@[j])@ == invalid_fixture_from_wire(
                    wv.invalid_fixtures[j],
                ),
        decreases wires@.len() - i,
    {
        let f = &wires[i];
        let severity = match read_severity(f.2.2) {
            Some(severity) => severity,
            None => {
                proof {
                    assert(wv.invalid_fixtures[i as int] == invalid_fixture_wire_view(wires@[i as int]));
                    assert(severity_at(wv.invalid_fixtures[i as int].severity_index) is None);
                    assert(invalid_manifest_from_wire(wv) is None);
                }
                return None;
            },
        };
        fixtures.push(
            InvalidFixture {
                fixture_id: f.0.clone(),
                diagnostic_family: f.1.clone(),
                expected_diagnostic: InvalidDiagnostic {
                    code: f.2.0.clone(),
                    path: f.2.1.clone(),
                    severity,
                },
            },
        );
        i = i + 1;
    }
    let e = BinaryInvalidManifestEnvelope {
        schema_version,
        wire_version,
        payload: InvalidFixtureManifest {
            schema_version: payload_schema_version,
            owner_pr,
            source_ir_module,
            invalid_fixture_id_format,
            invalid_fixtures: fixtures,
        },
    };
    assert(e@.payload.invalid_fixtures =~= invalid_manifest_from_wire(wv)->0.payload.invalid_fixtures);
    Some(e)
}

/// The check of the schema and wire versions that frame a binary envelope.
pub open spec fn binary_versions_check(schema_version: u16, wire_version: u16) -> Result<
    (),
    CodecDiagnosticView,
> {
    if schema_version != CURRENT_SCHEMA_VERSION {
        Err(
            codec_error(
                "IR_SCHEMA_VERSION_UNSUPPORTED"@,
                "$.binary.schema_version"@,
                "unsupported schema version "@ + decimal(schema_version as nat),
            ),
        )
    } else if wire_version != CURRENT_BINARY_WIRE_VERSION {
        Err(
            codec_error(
                "IR_BINARY_WIRE_VERSION_UNSUPPORTED"@,
                "$.binary.wire_version"@,
                "unsupported binary wire version "@ + decimal(wire_version as nat),
            ),
        )
    } else {
        Ok(())
    }
}

/// A binary envelope's versions pass exactly when both are the current
/// ones; a wrong schema version is reported before a wrong wire version.
pub proof fn lemma_binary_versions(schema_version: u16, wire_version: u16)
    ensures
        binary_versions_check(schema_version, wire_version) is Ok <==> schema_version
            == CURRENT_SCHEMA_VERSION && wire_version == CURRENT_BINARY_WIRE_VERSION,
        schema_version != CURRENT_SCHEMA_VERSION ==> binary_versions_check(
            schema_version,
            wire_version,
        )->Err_0.code == "IR_SCHEMA_VERSION_UNSUPPORTED"@,
        schema_version == CURRENT_SCHEMA_VERSION && wire_version != CURRENT_BINARY_WIRE_VERSION
            ==> binary_versions_check(schema_version, wire_version)->Err_0.code
            == "IR_BINARY_WIRE_VERSION_UNSUPPORTED"@,
{
}

/// Whether a diagnostic reports bytes that do not read as a binary envelope.
pub open spec fn is_corrupt_payload(d: CodecDiagnosticView) -> bool {
    &&& d.code == "IR_BINARY_PAYLOAD_CORRUPT"@
    &&& d.path == "$.binary"@
    &&& d.severity == DiagnosticSeverity::Error
}

/// What decoding bytes as a binary fixture gives: `None` where the bytes do
/// not read as an envelope, else the fixture or the first failing check of
/// its versions and shape.
pub open spec fn binary_fixture_decoding(bytes: Seq<u8>) -> Option<
    Result<FixtureEnvelopeView, CodecDiagnosticView>,
> {
    match postcard_fixture_value(bytes) {
        None => None,
        Some(envelope) => Some(
            match then_check(
                binary_versions_check(envelope.schema_version, envelope.wire_version),
                fixture_shape(envelope.payload),
            ) {
                Ok(_) => Ok(envelope.payload),
                Err(e) => Err(e),
            },
        ),
    }
}

/// What decoding bytes as a binary invalid manifest gives: `None` where the
/// bytes do not read as an envelope, else the manifest or the first failing
/// check of its versions and shape.
pub open spec fn binary_invalid_manifest_decoding(bytes: Seq<u8>) -> Option<
    Result<InvalidFixtureManifestView, CodecDiagnosticView>,
> {
    match postcard_invalid_manifest_value(bytes) {
        Err(_) => None,
        Ok(wire) => match invalid_manifest_from_wire(wire) {
            None => None,
            Some(envelope) => Some(
                match then_check(
                    binary_versions_check(envelope.schema_version, envelope.wire_version),
                    invalid_manifest_shape(envelope.payload),
                ) {
                    Ok(_) => Ok(envelope.payload),
                    Err(e) => Err(e),
                },
            ),
        },
    }
}

fn validate_binary_versions(schema_version: u16, wire_version: u16) -> (r: CodecResult<()>)
    ensures
        check_outcome(r) == binary_versions_check(schema_version, wire_version),
{
    if schema_version != CURRENT_SCHEMA_VERSION {
        let mut message = owned("unsupported schema version ");
        push_decimal(&mut message, schema_version as u64);
        return Err(
            CodecDiagnostic::error(
                "IR_SCHEMA_VERSION_UNSUPPORTED",
                "$.binary.schema_version",
                message,
            ),
        );
    }
    if wire_version != CURRENT_BINARY_WIRE_VERSION {
        let mut message = owned("unsupported binary wire version ");
        push_decimal(&mut message, wire_version as u64);
        return Err(
            CodecDiagnostic::error(
                "IR_BINARY_WIRE_VERSION_UNSUPPORTED",
                "$.binary.wire_version",
                message,
            ),
        );
    }
    Ok(())
}

/// Encodes a fixture as a binary envelope with the given schema and wire
/// versions.  The fixture must have the fixture shape; the bytes are
/// postcard's writing of the envelope, which postcard reads back as the same
/// envelope.
pub fn encode_fixture_with_versions(fixture: &FixtureEnvelope, schema_version: u16, wire_version: u16) -> (r:
    CodecResult<Vec<u8>>)
    ensures
        match fixture_shape(fixture@) {
            Err(e) => r matches Err(d) && d@ == e,
            Ok(_) => {
                let envelope = BinaryFixtureEnvelopeView {
                    schema_version,
                    wire_version,
                    payload: fixture@,
                };
                r matches Ok(v) && v@ == postcard_fixture_bytes(envelope) && postcard_fixture_value(
                    v@,
                ) == Some(envelope)
            },
        },
{
    if let Err(d) = validate_fixture_shape(fixture) {
        return Err(d);
    }
    let envelope = BinaryFixtureEnvelope {
        schema_version,
        wire_version,
        payload: BinaryFixturePayload::from_fixture(fixture),
    };
    let wire = fixture_wire(envelope);
    match postcard_write_fixture(&wire) {
        Ok(bytes) => Ok(bytes),
        Err(message) => Err(CodecDiagnostic::error("IR_BINARY_ENCODE_ERROR", "$.binary", message)),
    }
}

/// Encodes a fixture as a binary envelope with the current schema and wire
/// versions.  Decoding the bytes gives the fixture back.
pub fn encode_fixture(fixture: &FixtureEnvelope) -> (r: CodecResult<Vec<u8>>)
    ensures
        match fixture_shape(fixture@) {
            Err(e) => r matches Err(d) && d@ == e,
            Ok(_) => {
                let envelope = BinaryFixtureEnvelopeView {
                    schema_version: CURRENT_SCHEMA_VERSION,
                    wire_version: CURRENT_BINARY_WIRE_VERSION,
                    payload: fixture@,
                };
                r matches Ok(v) && v@ == postcard_fixture_bytes(envelope)
            },
        },
        r matches Ok(bytes) ==> binary_fixture_decoding(bytes@) == Some(
            Ok::<FixtureEnvelopeView, CodecDiagnosticView>(fixture@),
        ),
{
    encode_fixture_with_versions(fixture, CURRENT_SCHEMA_VERSION, CURRENT_BINARY_WIRE_VERSION)
}

/// Decodes a fixture from a binary envelope: the bytes must read as an
/// envelope, carry the current schema and wire versions, and hold a fixture
/// of the fixture shape.
pub fn decode_fixture(bytes: &[u8]) -> (r: CodecResult<FixtureEnvelope>)
    ensures
        match binary_fixture_decoding(bytes@) {
            None => r matches Err(d) && is_corrupt_payload(d@),
            Some(Ok(fixture)) => r matches Ok(f) && f@ == fixture,
            Some(Err(e)) => r matches Err(d) && d@ == e,
        },
{
    let envelope = match postcard_read_fixture(bytes) {
        Ok(wire) => envelope_from_wire(wire),
        Err(message) => {
            return Err(CodecDiagnostic::error("IR_BINARY_PAYLOAD_CORRUPT", "$.binary", message));
        },
    };
    if let Err(d) = validate_binary_versions(envelope.schema_version, envelope.wire_version) {
        return Err(d);
    }
    let payload = FixtureEnvelope::from_payload(envelope.payload);
    if let Err(d) = validate_fixture_shape(&payload) {
        return Err(d);
    }
    Ok(payload)
}

proof fn lemma_invalid_manifest_wire_round_trip(schema_version: u16, wire_version: u16, m: InvalidFixtureManifestView)
    ensures
        invalid_manifest_from_wire(invalid_manifest_to_wire(schema_version, wire_version, m)) == Some(
            BinaryInvalidManifestEnvelopeView { schema_version, wire_version, payload: m },
        ),
{
    let w = invalid_manifest_to_wire(schema_version, wire_version, m);
    assert forall|i: int| 0 <= i < w.invalid_fixtures.len() implies (#[trigger] severity_at(
        w.invalid_fixtures[i].severity_index,
    )) is Some by {
        assert(w.invalid_fixtures[i] == invalid_fixture_to_wire(m.invalid_fixtures[i]));
    }
    let back = w.invalid_fixtures.map_values(|f: InvalidFixtureWireView| invalid_fixture_from_wire(f));
    assert(back =~= m.invalid_fixtures) by {
        assert forall|i: int| 0 <= i < back.len() implies back[i] == m.invalid_fixtures[i] by {
            assert(w.invalid_fixtures[i] == invalid_fixture_to_wire(m.invalid_fixtures[i]));
        }
    }
}

/// Encodes an invalid fixture manifest as a binary envelope with the current
/// schema and wire versions.  The manifest must have its shape; the bytes are
/// postcard's writing of the envelope, and decoding them gives the manifest
/// back.
pub fn encode_invalid_manifest(manifest: &InvalidFixtureManifest) -> (r: CodecResult<Vec<u8>>)
    ensures
        match invalid_manifest_shape(manifest@) {
            Err(e) => r matches Err(d) && d@ == e,
            Ok(_) => r matches Ok(v) && v@ == postcard_invalid_manifest_bytes(
                invalid_manifest_to_wire(
                    CURRENT_SCHEMA_VERSION,
                    CURRENT_BINARY_WIRE_VERSION,
                    manifest@,
                ),
            ),
        },
        r matches Ok(bytes) ==> binary_invalid_manifest_decoding(bytes@) == Some(
            Ok::<InvalidFixtureManifestView, CodecDiagnosticView>(manifest@),
        ),
{
    if let Err(d) = validate_invalid_manifest_shape(manifest) {
        return Err(d);
    }
    let wire = invalid_manifest_wire(CURRENT_SCHEMA_VERSION, CURRENT_BINARY_WIRE_VERSION, manifest);
    proof {
        lemma_invalid_manifest_wire_round_trip(
            CURRENT_SCHEMA_VERSION,
            CURRENT_BINARY_WIRE_VERSION,
            manifest@,
        );
    }
    match postcard_write_invalid_manifest(&wire) {
        Ok(bytes) => Ok(bytes),
        Err(message) => Err(CodecDiagnostic::error("IR_BINARY_ENCODE_ERROR", "$.binary", message)),
    }
}

/// Decodes an invalid fixture manifest from a binary envelope: the bytes
/// must read as an envelope, carry the current schema and wire versions, and
/// hold a manifest of the invalid manifest shape.
pub fn decode_invalid_manifest(bytes: &[u8]) -> (r: CodecResult<InvalidFixtureManifest>)
    ensures
        match binary_invalid_manifest_decoding(bytes@) {
            None => r matches Err(d) && d@ == codec_error(
                "IR_BINARY_PAYLOAD_CORRUPT"@,
                "$.binary"@,
                corrupt_manifest_message(bytes@),
            ),
            Some(Ok(manifest)) => r matches Ok(m) && m@ == manifest,
            Some(Err(e)) => r matches Err(d) && d@ == e,
        },
{
    let envelope = match postcard_read_invalid_manifest(bytes) {
        Ok(wire) => match invalid_manifest_from_wire_value(wire) {
            Some(envelope) => envelope,
            None => {
                return Err(
                    CodecDiagnostic::error(
                        "IR_BINARY_PAYLOAD_CORRUPT",
                        "$.binary",
                        owned("Serde Deserialization Error"),
                    ),
                );
            },
        },
        Err(message) => {
            let message = if severity_fails_first(bytes) {
                owned("Serde Deserialization Error")
            } else {
                message
            };
            return Err(CodecDiagnostic::error("IR_BINARY_PAYLOAD_CORRUPT", "$.binary", message));
        },
    };
    if let Err(d) = validate_binary_versions(envelope.schema_version, envelope.wire_version) {
        return Err(d);
    }
    if let Err(d) = validate_invalid_manifest_shape(&envelope.payload) {
        return Err(d);
    }
    Ok(envelope.payload)
}

} // verus!
