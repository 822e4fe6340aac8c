//! Producers of dynamic fixtures.

use vstd::prelude::*;

use crate::codec::json_debug::FixtureEnvelope;
use crate::dynamic_ui::capabilities::DynamicUiProducerCapabilitySet;
use crate::dynamic_ui::diagnostics::DynamicUiResult;
use crate::dynamic_ui::source::DynamicUiSourceMetadata;
use crate::dynamic_ui::trust::DynamicUiTrustMetadata;

verus! {

#[derive(Clone, Copy, Debug, PartialEq, Eq)]
pub struct DynamicProducerDescriptor {
    pub name: &'static str,
    pub owner_pr: &'static str,
    pub source: DynamicUiSourceMetadata,
    pub trust: DynamicUiTrustMetadata,
    pub capabilities: DynamicUiProducerCapabilitySet,
}

/// A producer of dynamic fixtures, implemented by the library's users.
pub trait DynamicProducer {
    /// The descriptor the producer declares.
    spec fn declared_descriptor(&self) -> DynamicProducerDescriptor;

    fn descriptor(&self) -> (r: DynamicProducerDescriptor)
        ensures
            r == self.declared_descriptor(),
    ;

    fn produce_fixture(&self) -> DynamicUiResult<FixtureEnvelope>;
}

/// A producer that hands out a fixture it holds.
#[derive(Clone, Debug)]
pub struct InMemoryDynamicProducer {
    descriptor: DynamicProducerDescriptor,
    fixture: FixtureEnvelope,
}

impl InMemoryDynamicProducer {
    pub fn new(descriptor: DynamicProducerDescriptor, fixture: FixtureEnvelope) -> (r: Self)
        ensures
            r.held_descriptor() == descriptor,
            r.held_fixture() == fixture,
    {
        InMemoryDynamicProducer { descriptor, fixture }
    }

    /// The descriptor the producer holds.
    pub closed spec fn held_descriptor(&self) -> DynamicProducerDescriptor {
        self.descriptor
    }

    /// The fixture the producer holds.
    pub closed spec fn held_fixture(&self) -> FixtureEnvelope {
        self.fixture
    }
}

impl DynamicProducer for InMemoryDynamicProducer {
    closed spec fn declared_descriptor(&self) -> DynamicProducerDescriptor {
        self.descriptor
    }

    fn descriptor(&self) -> (r: DynamicProducerDescriptor)
        ensures
            r == self.held_descriptor(),
    {
        self.descriptor
    }

    fn produce_fixture(&self) -> (r: DynamicUiResult<FixtureEnvelope>)
        ensures
            r matches Ok(f) && f@ == self.held_fixture()@,
    {
        Ok(self.fixture.duplicate())
    }
}

} // verus!
