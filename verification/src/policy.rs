use vstd::prelude::*;

verus! {

/// Bit demanding that remote package archives carry a valid signature.
pub const SIG_PACKAGE: u32 = 1;

/// Bit tolerating an absent signature even where `SIG_PACKAGE` is set.
/// The two bits are independent: "required" and "missing is acceptable"
/// are layered, and both must be consulted when a check comes back
/// reporting no signature at all.
pub const SIG_PACKAGE_OPTIONAL: u32 = 2;

/// A trust policy for package archives: a bitmask over the `SIG_*` bits.
/// Supplied by configuration; this crate only reads it.
#[derive(Clone, Copy, PartialEq, Eq, Structural, Debug)]
pub struct SigLevel {
    pub bits: u32,
}

impl SigLevel {
    /// Every bit of `mask` is set in `self`.
    pub open spec fn spec_contains(self, mask: u32) -> bool {
        self.bits & mask == mask
    }

    pub fn contains(self, mask: u32) -> (r: bool)
        ensures
            r == self.spec_contains(mask),
    {
        self.bits & mask == mask
    }

    /// The policy demands a signature on every package archive.
    pub open spec fn spec_requires_package(self) -> bool {
        self.spec_contains(SIG_PACKAGE)
    }

    pub fn requires_package(self) -> (r: bool)
        ensures
            r == self.spec_requires_package(),
    {
        self.contains(SIG_PACKAGE)
    }

    /// The policy tolerates an archive whose signature is missing.
    pub open spec fn spec_tolerates_missing(self) -> bool {
        self.spec_contains(SIG_PACKAGE_OPTIONAL)
    }

    pub fn tolerates_missing(self) -> (r: bool)
        ensures
            r == self.spec_tolerates_missing(),
    {
        self.contains(SIG_PACKAGE_OPTIONAL)
    }
}

} // verus!
