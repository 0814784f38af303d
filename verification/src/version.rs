//! The Windows release that capabilities are decided by.

use vstd::prelude::*;

verus! {

/// The three numbers by which the kernel identifies a Windows release.
#[derive(Clone, Copy, Debug, PartialEq, Eq, Structural)]
pub struct WindowsVersion {
    pub major: u32,
    pub minor: u32,
    pub build: u32,
}

impl WindowsVersion {
    /// The release with these three numbers.
    pub fn new(major: u32, minor: u32, build: u32) -> (version: WindowsVersion)
        ensures
            version == (WindowsVersion { major, minor, build }),
    {
        WindowsVersion { major, minor, build }
    }

    /// The version to decide by when the kernel could not be asked: all three
    /// numbers are zero.
    pub open spec fn spec_unknown() -> WindowsVersion {
        WindowsVersion { major: 0, minor: 0, build: 0 }
    }

    /// The version to decide by when the kernel could not be asked.
    #[verifier::when_used_as_spec(spec_unknown)]
    pub fn unknown() -> (version: WindowsVersion)
        ensures
            version == Self::spec_unknown(),
    {
        WindowsVersion { major: 0, minor: 0, build: 0 }
    }

    /// What a version query reported. The query answers with a status and the
    /// three numbers; a negative status means that it failed and that the
    /// numbers mean nothing.
    pub fn from_query(status: i32, major: u32, minor: u32, build: u32) -> (probed: Option<
        WindowsVersion,
    >)
        ensures
            probed == if status >= 0 {
                Some(WindowsVersion { major, minor, build })
            } else {
                None
            },
    {
        if status >= 0 {
            Some(WindowsVersion { major, minor, build })
        } else {
            None
        }
    }

    /// The version to decide by after a query: what it reported, or
    /// [`WindowsVersion::unknown`] when it reported nothing.
    pub fn or_unknown(probed: Option<WindowsVersion>) -> (version: WindowsVersion)
        ensures
            version == match probed {
                Some(reported) => reported,
                None => Self::spec_unknown(),
            },
    {
        match probed {
            Some(reported) => reported,
            None => WindowsVersion::unknown(),
        }
    }
}

} // verus!
