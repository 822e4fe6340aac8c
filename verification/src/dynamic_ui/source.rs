use vstd::prelude::*;

verus! {

/// The label of a JSON debug input.
#[derive(Clone, Copy, Debug, PartialEq, Eq)]
pub struct DebugJsonLabel {
    pub label: &'static str,
}

/// The label of a binary bytes input.
#[derive(Clone, Copy, Debug, PartialEq, Eq)]
pub struct BinaryBytesLabel {
    pub label: &'static str,
}

/// The name of a generated fixture.
#[derive(Clone, Copy, Debug, PartialEq, Eq)]
pub struct GeneratedFixtureRef {
    pub fixture_name: &'static str,
}

/// The name of an in-memory producer.
#[derive(Clone, Copy, Debug, PartialEq, Eq)]
pub struct InMemoryProducerTag {
    pub name: &'static str,
}

#[derive(Clone, Copy, Debug, PartialEq, Eq)]
pub enum DynamicUiSourceKind {
    JsonDebug(DebugJsonLabel),
    BinaryBytes(BinaryBytesLabel),
    GeneratedFixture(GeneratedFixtureRef),
    InMemory(InMemoryProducerTag),
}

/// The name of a source kind.
pub open spec fn source_kind_text(kind: DynamicUiSourceKind) -> Seq<char> {
    match kind {
        DynamicUiSourceKind::JsonDebug(_) => "json_debug"@,
        DynamicUiSourceKind::BinaryBytes(_) => "binary_bytes"@,
        DynamicUiSourceKind::GeneratedFixture(_) => "generated_fixture"@,
        DynamicUiSourceKind::InMemory(_) => "in_memory"@,
    }
}

/// The identifier of a source: its label or name.
pub open spec fn source_kind_id(kind: DynamicUiSourceKind) -> Seq<char> {
    match kind {
        DynamicUiSourceKind::JsonDebug(label) => label.label@,
        DynamicUiSourceKind::BinaryBytes(label) => label.label@,
        DynamicUiSourceKind::GeneratedFixture(reference) => reference.fixture_name@,
        DynamicUiSourceKind::InMemory(tag) => tag.name@,
    }
}

impl DynamicUiSourceKind {
    pub fn as_str(self) -> (r: &'static str)
        ensures
            r@ == source_kind_text(self),
    {
        match self {
            DynamicUiSourceKind::JsonDebug(_) => "json_debug",
            DynamicUiSourceKind::BinaryBytes(_) => "binary_bytes",
            DynamicUiSourceKind::GeneratedFixture(_) => "generated_fixture",
            DynamicUiSourceKind::InMemory(_) => "in_memory",
        }
    }

    pub fn source_id(self) -> (r: &'static str)
        ensures
            r@ == source_kind_id(self),
    {
        match self {
            DynamicUiSourceKind::JsonDebug(label) => label.label,
            DynamicUiSourceKind::BinaryBytes(label) => label.label,
            DynamicUiSourceKind::GeneratedFixture(reference) => reference.fixture_name,
            DynamicUiSourceKind::InMemory(tag) => tag.name,
        }
    }
}

#[derive(Clone, Copy, Debug, PartialEq, Eq)]
pub struct DynamicUiSourceMetadata {
    pub kind: DynamicUiSourceKind,
    pub schema_path: &'static str,
}

impl DynamicUiSourceMetadata {
    pub fn json_debug(label: &'static str, schema_path: &'static str) -> (r: Self)
        ensures
            r.kind == DynamicUiSourceKind::JsonDebug(DebugJsonLabel { label }),
            r.schema_path == schema_path,
    {
        DynamicUiSourceMetadata { kind: DynamicUiSourceKind::JsonDebug(DebugJsonLabel { label }), schema_path }
    }

    pub fn binary_bytes(label: &'static str, schema_path: &'static str) -> (r: Self)
        ensures
            r.kind == DynamicUiSourceKind::BinaryBytes(BinaryBytesLabel { label }),
            r.schema_path == schema_path,
    {
        DynamicUiSourceMetadata {
            kind: DynamicUiSourceKind::BinaryBytes(BinaryBytesLabel { label }),
            schema_path,
        }
    }

    pub fn generated_fixture(fixture_name: &'static str, schema_path: &'static str) -> (r: Self)
        ensures
            r.kind == DynamicUiSourceKind::GeneratedFixture(GeneratedFixtureRef { fixture_name }),
            r.schema_path == schema_path,
    {
        DynamicUiSourceMetadata {
            kind: DynamicUiSourceKind::GeneratedFixture(GeneratedFixtureRef { fixture_name }),
            schema_path,
        }
    }

    pub fn in_memory(name: &'static str, schema_path: &'static str) -> (r: Self)
        ensures
            r.kind == DynamicUiSourceKind::InMemory(InMemoryProducerTag { name }),
            r.schema_path == schema_path,
    {
        DynamicUiSourceMetadata { kind: DynamicUiSourceKind::InMemory(InMemoryProducerTag { name }), schema_path }
    }

    pub fn source_id(self) -> (r: &'static str)
        ensures
            r@ == source_kind_id(self.kind),
    {
        self.kind.source_id()
    }
}

/// The schema path at which dynamic sources must deliver validated IR.
pub const VALIDATED_IR_SCHEMA_PATH: &'static str = "$.ir_debug";

} // verus!
