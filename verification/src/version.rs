//! The detected system version and the baseline it is measured against.

use vstd::prelude::*;

verus! {

/// Major number of the newest supported system release.
pub const BASELINE_MAJOR: u32 = 6;

/// Minor number of the newest supported system release.
pub const BASELINE_MINOR: u32 = 1;

/// A system version as the operating system reports it.
#[derive(Clone, Copy, Debug, PartialEq, Eq, Structural)]
pub struct OsVersion {
    pub major: u32,
    pub minor: u32,
}

impl OsVersion {
    /// The newest supported release, which also stands in for a system whose
    /// version could not be detected.
    pub open spec fn baseline_spec() -> OsVersion {
        OsVersion { major: BASELINE_MAJOR, minor: BASELINE_MINOR }
    }

    /// The version lies strictly after the baseline, comparing the major
    /// number first and the minor number second.
    pub open spec fn is_newer_than_baseline(self) -> bool {
        self.major > BASELINE_MAJOR || (self.major == BASELINE_MAJOR && self.minor
            > BASELINE_MINOR)
    }

    /// The version is the baseline or lies before it.
    pub open spec fn is_legacy(self) -> bool {
        self.major < BASELINE_MAJOR || (self.major == BASELINE_MAJOR && self.minor
            <= BASELINE_MINOR)
    }

    pub fn new(major: u32, minor: u32) -> (version: OsVersion)
        ensures
            version == (OsVersion { major, minor }),
    {
        OsVersion { major, minor }
    }

    pub fn baseline() -> (version: OsVersion)
        ensures
            version == OsVersion::baseline_spec(),
            version.major == 6,
            version.minor == 1,
    {
        OsVersion { major: BASELINE_MAJOR, minor: BASELINE_MINOR }
    }

    pub fn newer_than_baseline(&self) -> (newer: bool)
        ensures
            newer == self.is_newer_than_baseline(),
    {
        self.major > BASELINE_MAJOR || (self.major == BASELINE_MAJOR && self.minor
            > BASELINE_MINOR)
    }

    /// Every version is either legacy or newer than the baseline, never both.
    pub proof fn lemma_legacy_iff_not_newer(self)
        ensures
            self.is_legacy() <==> !self.is_newer_than_baseline(),
    {
    }

    /// The baseline itself is legacy.
    pub proof fn lemma_baseline_is_legacy()
        ensures
            OsVersion::baseline_spec().is_legacy(),
            !OsVersion::baseline_spec().is_newer_than_baseline(),
    {
    }
}

} // verus!
