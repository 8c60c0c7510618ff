//! Bit-level register value manipulation.  The volatile memory access
//! itself happens outside the library; the bit arithmetic is checked here.

use vstd::prelude::*;

verus! {

/// Whether bit `i` of `v` is set.
pub open spec fn spec_bit(v: u32, i: u32) -> bool {
    v & (1u32 << i) != 0
}

/// A mask of `width` low bits.
pub open spec fn spec_low_mask(width: u32) -> u32
    recommends
        width < 32,
{
    ((1u32 << width) - 1) as u32
}

/// Wrapper for register values with bit-level access patterns.
#[derive(Debug, Clone, Copy, PartialEq, Eq, Structural)]
pub struct RegisterValue(pub u32);

impl RegisterValue {
    /// Check whether a specific bit is set.
    pub fn is_bit_set(&self, bit: u32) -> (r: bool)
        requires
            bit < 32,
        ensures
            r == spec_bit(self.0, bit),
    {
        (self.0 & (1u32 << bit)) != 0
    }

    /// Set a specific bit to one, leaving every other bit unchanged.
    pub fn set_bit(&mut self, bit: u32)
        requires
            bit < 32,
        ensures
            spec_bit(final(self).0, bit),
            forall|j: u32| j < 32 && j != bit ==> spec_bit(final(self).0, j) == spec_bit(old(self).0, j),
    {
        let ghost v0 = self.0;
        self.0 = self.0 | (1u32 << bit);
        proof {
            assert(spec_bit(v0 | (1u32 << bit), bit)) by (bit_vector)
                requires
                    bit < 32,
            ;
            assert forall|j: u32| j < 32 && j != bit implies spec_bit(v0 | (1u32 << bit), j)
                == spec_bit(v0, j) by {
                assert(spec_bit(v0 | (1u32 << bit), j) == spec_bit(v0, j)) by (bit_vector)
                    requires
                        bit < 32,
                        j < 32,
                        j != bit,
                ;
            }
        }
    }

    /// Clear a specific bit to zero, leaving every other bit unchanged.
    pub fn clear_bit(&mut self, bit: u32)
        requires
            bit < 32,
        ensures
            !spec_bit(final(self).0, bit),
            forall|j: u32| j < 32 && j != bit ==> spec_bit(final(self).0, j) == spec_bit(old(self).0, j),
    {
        let ghost v0 = self.0;
        self.0 = self.0 & !(1u32 << bit);
        proof {
            assert(!spec_bit(v0 & !(1u32 << bit), bit)) by (bit_vector)
                requires
                    bit < 32,
            ;
            assert forall|j: u32| j < 32 && j != bit implies spec_bit(v0 & !(1u32 << bit), j)
                == spec_bit(v0, j) by {
                assert(spec_bit(v0 & !(1u32 << bit), j) == spec_bit(v0, j)) by (bit_vector)
                    requires
                        bit < 32,
                        j < 32,
                        j != bit,
                ;
            }
        }
    }

    /// Extract the bit field in `[start_bit, end_bit)`, shifted down to
    /// the low bits.
    pub fn get_bits(&self, start_bit: u32, end_bit: u32) -> (r: u32)
        requires
            start_bit < end_bit,
            end_bit <= 32,
            end_bit - start_bit < 32,
        ensures
            r == (self.0 >> start_bit) & spec_low_mask((end_bit - start_bit) as u32),
    {
        let width = end_bit - start_bit;
        proof {
            assert(1u32 << width >= 1) by (bit_vector)
                requires
                    width < 32,
            ;
        }
        let mask = (1u32 << width) - 1;
        (self.0 >> start_bit) & mask
    }

    /// Replace the bit field in `[start_bit, end_bit)` with the low bits
    /// of `value`.
    pub fn set_bits(&mut self, start_bit: u32, end_bit: u32, value: u32)
        requires
            start_bit < end_bit,
            end_bit <= 32,
            end_bit - start_bit < 32,
        ensures
            final(self).0 == (old(self).0 & !(spec_low_mask((end_bit - start_bit) as u32)
                << start_bit)) | ((value & spec_low_mask((end_bit - start_bit) as u32))
                << start_bit),
    {
        let width = end_bit - start_bit;
        proof {
            assert(1u32 << width >= 1) by (bit_vector)
                requires
                    width < 32,
            ;
        }
        let mask = (1u32 << width) - 1;
        self.0 = (self.0 & !(mask << start_bit)) | ((value & mask) << start_bit);
    }

    /// Raw value accessor.
    pub fn as_u32(&self) -> (r: u32)
        ensures
            r == self.0,
    {
        self.0
    }
}

} // verus!
