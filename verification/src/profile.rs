//! The API profiles under which a context is asked for.

use vstd::prelude::*;

verus! {

/// A graphics API profile.
#[derive(Clone, Copy, Debug, PartialEq, Eq, Hash, Structural)]
pub enum ApiProfile {
    /// The platform's default, desktop-class profile.
    Default,
    /// The embedded profile, with no version pinned.
    Embedded,
}

impl ApiProfile {
    /// The profile to ask for once this one was refused, if there is one.
    pub open spec fn fallback_of(self) -> Option<ApiProfile> {
        match self {
            ApiProfile::Default => Some(ApiProfile::Embedded),
            ApiProfile::Embedded => None,
        }
    }

    /// The profile that is asked for first.
    pub fn first() -> (profile: ApiProfile)
        ensures
            profile == ApiProfile::Default,
    {
        ApiProfile::Default
    }

    /// The profile to ask for once this one was refused: the embedded profile
    /// after the default one, and nothing after the embedded one.
    pub fn fallback(&self) -> (next: Option<ApiProfile>)
        ensures
            next == self.fallback_of(),
    {
        match self {
            ApiProfile::Default => Some(ApiProfile::Embedded),
            ApiProfile::Embedded => None,
        }
    }
}

} // verus!
