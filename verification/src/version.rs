//! Windows version tuples and their total order.

use vstd::prelude::*;

verus! {

/// A Windows version: major, minor and build numbers plus the update
/// revision ("patch").  Declared build versions carry the revision they
/// first shipped with (zero when the whole build line shares one
/// interface shape); a detected version carries the revision read from
/// the system, or the largest possible value when that read failed (an
/// unknown revision must not exclude any definition of the same build).
#[derive(Clone, Copy, Debug, PartialEq, Eq, Structural)]
pub struct WindowsVersion {
    pub major: u32,
    pub minor: u32,
    pub build: u32,
    pub patch: u32,
}

impl WindowsVersion {
    /// Lexicographic order on (major, minor, build, patch).
    pub open spec fn spec_le(a: WindowsVersion, b: WindowsVersion) -> bool {
        if a.major != b.major {
            a.major < b.major
        } else if a.minor != b.minor {
            a.minor < b.minor
        } else if a.build != b.build {
            a.build < b.build
        } else {
            a.patch <= b.patch
        }
    }

    pub open spec fn spec_lt(a: WindowsVersion, b: WindowsVersion) -> bool {
        Self::spec_le(a, b) && a != b
    }

    pub fn new(major: u32, minor: u32, build: u32, patch: u32) -> (r: WindowsVersion)
        ensures
            r == (WindowsVersion { major, minor, build, patch }),
    {
        WindowsVersion { major, minor, build, patch }
    }

    /// Version as detected at runtime.  The patch revision is optional:
    /// when the separate revision query failed, the detected version
    /// compares as if it had the newest possible revision of its build.
    pub fn from_detection(major: u32, minor: u32, build: u32, patch: Option<u32>) -> (r:
        WindowsVersion)
        ensures
            r.major == major,
            r.minor == minor,
            r.build == build,
            r.patch == (if patch is Some { patch->0 } else { u32::MAX }),
    {
        let p: u32 = match patch {
            Some(p) => p,
            None => u32::MAX,
        };
        WindowsVersion { major, minor, build, patch: p }
    }

    pub fn le(&self, other: &WindowsVersion) -> (r: bool)
        ensures
            r == Self::spec_le(*self, *other),
    {
        if self.major != other.major {
            self.major < other.major
        } else if self.minor != other.minor {
            self.minor < other.minor
        } else if self.build != other.build {
            self.build < other.build
        } else {
            self.patch <= other.patch
        }
    }

    /// The order is total: any two versions compare one way or the other.
    pub proof fn lemma_le_total(a: WindowsVersion, b: WindowsVersion)
        ensures
            Self::spec_le(a, b) || Self::spec_le(b, a),
            Self::spec_le(a, b) && Self::spec_le(b, a) ==> a == b,
    {
    }

    pub proof fn lemma_le_trans(a: WindowsVersion, b: WindowsVersion, c: WindowsVersion)
        requires
            Self::spec_le(a, b),
            Self::spec_le(b, c),
        ensures
            Self::spec_le(a, c),
    {
    }
}

/// Numeric value of four little-endian bytes.
pub open spec fn spec_u32_from_le(b0: u8, b1: u8, b2: u8, b3: u8) -> u32 {
    (b0 + b1 * 0x100 + b2 * 0x1_0000 + b3 * 0x100_0000) as u32
}

/// Interprets the raw registry value holding the update revision.  The
/// registry stores it as a little-endian signed 32-bit number; a negative
/// value is treated as absent.
pub fn patch_value_from_bytes(b: &[u8; 4]) -> (r: Option<u32>)
    ensures
        b[3] < 0x80 ==> r == Some(spec_u32_from_le(b[0], b[1], b[2], b[3])),
        b[3] >= 0x80 ==> r is None,
{
    let b0 = b[0];
    let b1 = b[1];
    let b2 = b[2];
    let b3 = b[3];
    if b3 >= 0x80 {
        None
    } else {
        Some(b0 as u32 + b1 as u32 * 0x100 + b2 as u32 * 0x1_0000 + b3 as u32 * 0x100_0000)
    }
}

} // verus!
