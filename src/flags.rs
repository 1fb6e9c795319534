//! Capability flags: the optional protocol features negotiated at INIT.
use vstd::prelude::*;

verus! {

/// Every capability bit that `CapabilityFlags` can hold.
pub const ALL_CAPABILITIES: u32 = 0x1df45b;
/// The capabilities enabled by default.
pub const DEFAULT_CAPABILITIES: u32 = 0xc9009;

/// Capability flags to control the behavior of the kernel driver.
///
/// The set holds capability bits of the INIT flags (`FUSE_ASYNC_READ`,
/// `FUSE_POSIX_LOCKS`, ...); only the bits of `ALL_CAPABILITIES` are ever set.
#[derive(Clone, Copy, Debug, PartialEq, Eq, Hash, Structural)]
pub struct CapabilityFlags {
    bits: u32,
}

impl CapabilityFlags {
    /// The raw bits of the set.
    pub closed spec fn spec_bits(&self) -> u32 {
        self.bits
    }

    /// Only known capability bits are set.
    pub open spec fn wf(&self) -> bool {
        self.spec_bits() & !ALL_CAPABILITIES == 0
    }


    /// The raw bits of the set.
    pub fn bits(&self) -> (r: u32)
        ensures
            r == self.spec_bits(),
    {
        self.bits
    }

    /// The empty set.
    pub fn empty() -> (r: Self)
        ensures
            r.spec_bits() == 0,
            r.wf(),
    {
        proof {
            assert(0u32 & !ALL_CAPABILITIES == 0) by (bit_vector);
        }
        CapabilityFlags { bits: 0 }
    }

    /// Every known capability.
    pub fn all() -> (r: Self)
        ensures
            r.spec_bits() == ALL_CAPABILITIES,
            r.wf(),
    {
        proof {
            assert(ALL_CAPABILITIES & !ALL_CAPABILITIES == 0) by (bit_vector);
        }
        CapabilityFlags { bits: ALL_CAPABILITIES }
    }

    /// The known capabilities among `bits`; the others are dropped.
    pub fn from_bits_truncate(bits: u32) -> (r: Self)
        ensures
            r.spec_bits() == bits & ALL_CAPABILITIES,
            r.wf(),
    {
        proof {
            assert((bits & ALL_CAPABILITIES) & !ALL_CAPABILITIES == 0) by (bit_vector);
        }
        CapabilityFlags { bits: bits & ALL_CAPABILITIES }
    }

    /// Every capability of `other` is in `self`.
    pub fn contains(&self, other: CapabilityFlags) -> (r: bool)
        ensures
            r == (self.spec_bits() & other.spec_bits() == other.spec_bits()),
    {
        self.bits & other.bits == other.bits
    }

    /// Add the capabilities of `other`.
    pub fn insert(&mut self, other: CapabilityFlags)
        requires
            old(self).wf(),
            other.wf(),
        ensures
            final(self).spec_bits() == old(self).spec_bits() | other.spec_bits(),
            final(self).wf(),
    {
        let a = self.bits;
        let b = other.bits;
        proof {
            assert(a & !ALL_CAPABILITIES == 0 && b & !ALL_CAPABILITIES == 0 ==> (a | b)
                & !ALL_CAPABILITIES == 0) by (bit_vector);
        }
        self.bits = a | b;
    }

    /// Remove the capabilities of `other`.
    pub fn remove(&mut self, other: CapabilityFlags)
        requires
            old(self).wf(),
        ensures
            final(self).spec_bits() == old(self).spec_bits() & !other.spec_bits(),
            final(self).wf(),
    {
        let a = self.bits;
        let b = other.bits;
        proof {
            assert(a & !ALL_CAPABILITIES == 0 ==> (a & !b) & !ALL_CAPABILITIES == 0)
                by (bit_vector);
        }
        self.bits = a & !b;
    }

    /// The capabilities in both sets.
    pub fn intersection(&self, other: CapabilityFlags) -> (r: Self)
        requires
            self.wf(),
        ensures
            r.spec_bits() == self.spec_bits() & other.spec_bits(),
            r.wf(),
    {
        let a = self.bits;
        let b = other.bits;
        proof {
            assert(a & !ALL_CAPABILITIES == 0 ==> (a & b) & !ALL_CAPABILITIES == 0)
                by (bit_vector);
        }
        CapabilityFlags { bits: a & b }
    }

    /// The capabilities in either set.
    pub fn union(&self, other: CapabilityFlags) -> (r: Self)
        requires
            self.wf(),
            other.wf(),
        ensures
            r.spec_bits() == self.spec_bits() | other.spec_bits(),
            r.wf(),
    {
        let mut r = *self;
        r.insert(other);
        r
    }
}

impl Default for CapabilityFlags {
    /// ASYNC_READ, PARALLEL_DIROPS, AUTO_INVAL_DATA, HANDLE_KILLPRIV, ASYNC_DIO
    /// and ATOMIC_O_TRUNC.
    fn default() -> (r: Self)
        ensures
            r.spec_bits() == DEFAULT_CAPABILITIES,
            r.wf(),
    {
        proof {
            assert(DEFAULT_CAPABILITIES & !ALL_CAPABILITIES == 0) by (bit_vector);
        }
        CapabilityFlags { bits: DEFAULT_CAPABILITIES }
    }
}

} // verus!
