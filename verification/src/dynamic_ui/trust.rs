use vstd::prelude::*;

verus! {

#[derive(Clone, Copy, Debug, PartialEq, Eq, Structural)]
pub enum DynamicUiTrustLevel {
    FirstParty,
    GeneratedFixture,
    Sandbox,
    Untrusted,
}

/// The name of a trust level.
pub open spec fn trust_level_text(level: DynamicUiTrustLevel) -> Seq<char> {
    match level {
        DynamicUiTrustLevel::FirstParty => "first_party"@,
        DynamicUiTrustLevel::GeneratedFixture => "generated_fixture"@,
        DynamicUiTrustLevel::Sandbox => "sandbox"@,
        DynamicUiTrustLevel::Untrusted => "untrusted"@,
    }
}

impl DynamicUiTrustLevel {
    pub fn as_str(self) -> (r: &'static str)
        ensures
            r@ == trust_level_text(self),
    {
        match self {
            DynamicUiTrustLevel::FirstParty => "first_party",
            DynamicUiTrustLevel::GeneratedFixture => "generated_fixture",
            DynamicUiTrustLevel::Sandbox => "sandbox",
            DynamicUiTrustLevel::Untrusted => "untrusted",
        }
    }

    /// Every level but `Untrusted` is trusted.
    pub fn is_trusted(self) -> (r: bool)
        ensures
            r == (self != DynamicUiTrustLevel::Untrusted),
    {
        match self {
            DynamicUiTrustLevel::FirstParty => true,
            DynamicUiTrustLevel::GeneratedFixture => true,
            DynamicUiTrustLevel::Sandbox => true,
            DynamicUiTrustLevel::Untrusted => false,
        }
    }
}

#[derive(Clone, Copy, Debug, PartialEq, Eq)]
pub struct DynamicUiTrustMetadata {
    pub level: DynamicUiTrustLevel,
    pub owner_pr: &'static str,
}

impl DynamicUiTrustMetadata {
    pub fn first_party(owner_pr: &'static str) -> (r: Self)
        ensures
            r.level == DynamicUiTrustLevel::FirstParty,
            r.owner_pr == owner_pr,
    {
        DynamicUiTrustMetadata { level: DynamicUiTrustLevel::FirstParty, owner_pr }
    }

    pub fn generated_fixture(owner_pr: &'static str) -> (r: Self)
        ensures
            r.level == DynamicUiTrustLevel::GeneratedFixture,
            r.owner_pr == owner_pr,
    {
        DynamicUiTrustMetadata { level: DynamicUiTrustLevel::GeneratedFixture, owner_pr }
    }

    pub fn sandbox(owner_pr: &'static str) -> (r: Self)
        ensures
            r.level == DynamicUiTrustLevel::Sandbox,
            r.owner_pr == owner_pr,
    {
        DynamicUiTrustMetadata { level: DynamicUiTrustLevel::Sandbox, owner_pr }
    }

    pub fn untrusted(owner_pr: &'static str) -> (r: Self)
        ensures
            r.level == DynamicUiTrustLevel::Untrusted,
            r.owner_pr == owner_pr,
    {
        DynamicUiTrustMetadata { level: DynamicUiTrustLevel::Untrusted, owner_pr }
    }
}

} // verus!
