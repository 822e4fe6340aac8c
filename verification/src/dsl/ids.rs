//! The identifiers that DSL nodes, events and spans carry.

use vstd::prelude::*;

verus! {

/// The ID of a span of DSL source.
#[derive(Clone, Copy, Debug, PartialEq, Eq)]
pub struct SourceSpanId {
    pub id: &'static str,
}

/// The ID of a UI node.
#[derive(Clone, Copy, Debug, PartialEq, Eq)]
pub struct NodeId {
    pub id: &'static str,
}

/// The ID of an action.
#[derive(Clone, Copy, Debug, PartialEq, Eq)]
pub struct ActionId {
    pub id: &'static str,
}

/// The ID of a piece of state.
#[derive(Clone, Copy, Debug, PartialEq, Eq)]
pub struct StateId {
    pub id: &'static str,
}

/// The ID of a component.
#[derive(Clone, Copy, Debug, PartialEq, Eq)]
pub struct ComponentId {
    pub id: &'static str,
}

/// The key that tells siblings apart.
#[derive(Clone, Copy, Debug, PartialEq, Eq)]
pub struct KeyId {
    pub id: &'static str,
}

impl View for SourceSpanId {
    type V = Seq<char>;

    open spec fn view(&self) -> Seq<char> {
        self.id@
    }
}

impl View for NodeId {
    type V = Seq<char>;

    open spec fn view(&self) -> Seq<char> {
        self.id@
    }
}

impl View for ActionId {
    type V = Seq<char>;

    open spec fn view(&self) -> Seq<char> {
        self.id@
    }
}

impl View for StateId {
    type V = Seq<char>;

    open spec fn view(&self) -> Seq<char> {
        self.id@
    }
}

impl SourceSpanId {
    pub fn new(id: &'static str) -> (r: Self)
        ensures
            r == (SourceSpanId { id }),
            r@ == id@,
    {
        SourceSpanId { id }
    }

    pub fn as_str(&self) -> (r: &'static str)
        ensures
            r@ == self@,
    {
        self.id
    }
}

impl NodeId {
    pub fn new(id: &'static str) -> (r: Self)
        ensures
            r == (NodeId { id }),
            r@ == id@,
    {
        NodeId { id }
    }

    pub fn as_str(&self) -> (r: &'static str)
        ensures
            r@ == self@,
    {
        self.id
    }
}

impl ActionId {
    pub fn new(id: &'static str) -> (r: Self)
        ensures
            r == (ActionId { id }),
            r@ == id@,
    {
        ActionId { id }
    }

    pub fn as_str(&self) -> (r: &'static str)
        ensures
            r@ == self@,
    {
        self.id
    }
}

impl StateId {
    pub fn new(id: &'static str) -> (r: Self)
        ensures
            r == (StateId { id }),
            r@ == id@,
    {
        StateId { id }
    }

    pub fn as_str(&self) -> (r: &'static str)
        ensures
            r@ == self@,
    {
        self.id
    }
}

} // verus!
