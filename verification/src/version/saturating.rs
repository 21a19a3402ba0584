//! The saturate-on-overflow version counter.

use vstd::prelude::*;

verus! {

/// Simple incrementing version counter for files.
///
/// Incrementing past `u32::MAX` clamps at `u32::MAX`; the counter never
/// wraps.  A counter with value 0 is *invalid*; valid counters are always
/// at least 1.
#[derive(Debug, Copy, Clone, PartialEq, Eq, Structural, PartialOrd, Ord, Hash)]
pub struct FileVersion(u32);

impl FileVersion {
    /// The raw numeric value of this counter.
    pub closed spec fn val(self) -> u32 {
        self.0
    }

    /// What one saturating step from raw value `v` yields: `v + 1`, clamped
    /// at `u32::MAX`.
    pub open spec fn step(v: u32) -> u32 {
        if v == u32::MAX {
            u32::MAX
        } else {
            (v + 1) as u32
        }
    }

    /// What `n` saturating steps from raw value `v` yield: `v + n`, clamped
    /// at `u32::MAX`.
    pub open spec fn step_n(v: u32, n: u32) -> u32 {
        if v + n <= u32::MAX {
            (v + n) as u32
        } else {
            u32::MAX
        }
    }

    /// Creates a new [`FileVersion`] with a version number of 1.
    pub fn new() -> (r: Self)
        ensures
            r.val() == 1,
    {
        Self(1)
    }

    /// Creates a new **invalid** [`FileVersion`], with a raw value of 0.
    pub fn new_invalid() -> (r: Self)
        ensures
            r.val() == 0,
    {
        Self(0)
    }

    /// Creates a new file version holding exactly `version`, which must not
    /// be zero.
    pub(crate) fn new_with_version(version: u32) -> (r: Self)
        requires
            version != 0,
        ensures
            r.val() == version,
    {
        Self(version)
    }

    /// Rebuilds a counter from a raw value, valid or not.  Used when a
    /// serialized counter is read back.
    pub(crate) fn from_raw(version: u32) -> (r: Self)
        ensures
            r.val() == version,
    {
        Self(version)
    }

    /// Checks if this [`FileVersion`] is valid, that is, non-zero.
    pub fn is_valid(&self) -> (r: bool)
        ensures
            r == (self.val() != 0),
    {
        self.0 != 0
    }

    /// Gets the version number.  Same as [`FileVersion::value`].
    pub fn get(&self) -> (r: u32)
        ensures
            r == self.val(),
    {
        self.0
    }

    /// Gets the version number.  Same as [`FileVersion::get`].
    pub fn value(&self) -> (r: u32)
        ensures
            r == self.val(),
    {
        self.0
    }

    /// Increment the version number by one, clamping at `u32::MAX`.  Must
    /// not be called on an invalid counter.
    pub fn increment(&mut self)
        requires
            old(self).val() != 0,
        ensures
            final(self).val() == Self::step(old(self).val()),
            final(self).val() != 0,
    {
        if self.0 != u32::MAX {
            self.0 = self.0 + 1;
        }
    }

    /// Increment the version number by `n`, clamping at `u32::MAX`.  Must
    /// not be called on an invalid counter.
    pub fn increment_n(&mut self, n: u32)
        requires
            old(self).val() != 0,
        ensures
            final(self).val() == Self::step_n(old(self).val(), n),
            final(self).val() != 0,
    {
        if n <= u32::MAX - self.0 {
            self.0 = self.0 + n;
        } else {
            self.0 = u32::MAX;
        }
    }

    /// What `n` decrementing steps from raw value `v` yield: `v - n`,
    /// clamped at 1, so decrementing never leaves a counter invalid.  An
    /// invalid counter is left untouched.
    pub open spec fn step_back_n(v: u32, n: u32) -> u32 {
        if v == 0 {
            0u32
        } else if v > n {
            (v - n) as u32
        } else {
            1u32
        }
    }

    /// Decrement the version number by one, clamping at 1.  An invalid
    /// counter stays invalid.
    pub fn decrement(&mut self)
        ensures
            final(self).val() == Self::step_back_n(old(self).val(), 1),
    {
        if self.0 > 1 {
            self.0 = self.0 - 1;
        }
    }

    /// Decrement the version number by `n`, clamping at 1.  An invalid
    /// counter stays invalid.
    pub fn decrement_n(&mut self, n: u32)
        ensures
            final(self).val() == Self::step_back_n(old(self).val(), n),
    {
        if self.0 == 0 {
            return ;
        }
        if self.0 > n {
            self.0 = self.0 - n;
        } else {
            self.0 = 1;
        }
    }
}

impl Default for FileVersion {
    /// The default counter is valid with value 1.
    fn default() -> (r: Self)
        ensures
            r.val() == 1,
    {
        Self(1)
    }
}

} // verus!
