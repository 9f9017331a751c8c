//! What the release source reports about a release.

use vstd::prelude::*;

verus! {

/// A release that the release source offers as newer than the running one.
#[derive(Debug, Clone, PartialEq, Eq)]
pub struct ReleaseInfo {
    /// The version of the release.
    pub version: String,
    /// The version that is running.
    pub current_version: String,
    /// The release notes, if the manifest has any.
    pub body: Option<String>,
    /// The length of the artifact in bytes, if the manifest gives it.
    pub size: Option<u64>,
}

/// What a [`ReleaseInfo`] is, mathematically.
pub struct Release {
    pub version: Seq<char>,
    pub current_version: Seq<char>,
    pub body: Option<Seq<char>>,
    pub size: Option<u64>,
}

impl View for ReleaseInfo {
    type V = Release;

    open spec fn view(&self) -> Release {
        Release {
            version: self.version@,
            current_version: self.current_version@,
            body: self.body.deep_view(),
            size: self.size,
        }
    }
}

impl DeepView for ReleaseInfo {
    type V = Release;

    open spec fn deep_view(&self) -> Release {
        self@
    }
}

} // verus!
