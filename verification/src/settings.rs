//! The effect's parameter record.
//!
//! The record is plain data attached to a camera entity and copied once per
//! frame into GPU-visible uniform memory. Every component of it is a 32-bit
//! float on the GPU side; here each one is held as its raw IEEE-754 bit
//! pattern, so the record is exact integer data and byte-level layout claims
//! can be proved about it.

use vstd::prelude::*;

verus! {

/// Bit pattern of the 32-bit float 1.0.
pub const F32_ONE_BITS: u32 = 0x3F80_0000;

/// One column of a 3x3 matrix; each component is the raw bit pattern of a
/// 32-bit float.
#[derive(Clone, Copy, PartialEq, Eq, Structural, Debug)]
pub struct ColumnBits {
    pub x: u32,
    pub y: u32,
    pub z: u32,
}

/// A 3x3 matrix in column-major order, held as raw float bit patterns.
#[derive(Clone, Copy, PartialEq, Eq, Structural, Debug)]
pub struct Mat3Bits {
    pub x_axis: ColumnBits,
    pub y_axis: ColumnBits,
    pub z_axis: ColumnBits,
}

impl Mat3Bits {
    /// The identity matrix: 1.0 on the diagonal, 0.0 elsewhere.
    pub open spec fn spec_identity() -> Mat3Bits {
        Mat3Bits {
            x_axis: ColumnBits { x: F32_ONE_BITS, y: 0, z: 0 },
            y_axis: ColumnBits { x: 0, y: F32_ONE_BITS, z: 0 },
            z_axis: ColumnBits { x: 0, y: 0, z: F32_ONE_BITS },
        }
    }

    pub fn identity() -> (r: Mat3Bits)
        ensures
            r == Mat3Bits::spec_identity(),
    {
        Mat3Bits {
            x_axis: ColumnBits { x: F32_ONE_BITS, y: 0, z: 0 },
            y_axis: ColumnBits { x: 0, y: F32_ONE_BITS, z: 0 },
            z_axis: ColumnBits { x: 0, y: 0, z: F32_ONE_BITS },
        }
    }
}

/// The application-facing configuration of the effect.
#[derive(Clone, Copy, PartialEq, Eq, Structural, Debug)]
pub struct SettingsRecord {
    /// Intensity of the effect, as the bit pattern of a 32-bit float.
    /// The effect is defined for intensities in [0, 1]; a value outside
    /// that range is a caller error. The record stores whatever it is
    /// given, verbatim: nothing here clamps, rejects or normalises it.
    pub intensity_bits: u32,
    /// The color aberration matrix, as raw float bit patterns. The first
    /// column selects the primary color; by convention the matrix is
    /// doubly stochastic, but that is the caller's responsibility and is
    /// not enforced here.
    pub color_aberration_bits: Mat3Bits,
}

impl SettingsRecord {
    /// The default configuration: intensity 1.0 and the identity matrix.
    pub open spec fn spec_default() -> SettingsRecord {
        SettingsRecord {
            intensity_bits: F32_ONE_BITS,
            color_aberration_bits: Mat3Bits::spec_identity(),
        }
    }

    /// Returns the record with the intensity replaced by exactly the given
    /// bit pattern, whatever float it encodes: out-of-range intensities
    /// pass through untouched.
    pub fn with_intensity_bits(self, bits: u32) -> (r: SettingsRecord)
        ensures
            r.intensity_bits == bits,
            r.color_aberration_bits == self.color_aberration_bits,
    {
        SettingsRecord { intensity_bits: bits, ..self }
    }

    /// Returns the record with the aberration matrix replaced by exactly
    /// the given bit patterns, with no normalisation.
    pub fn with_color_aberration_bits(self, m: Mat3Bits) -> (r: SettingsRecord)
        ensures
            r.intensity_bits == self.intensity_bits,
            r.color_aberration_bits == m,
    {
        SettingsRecord { color_aberration_bits: m, ..self }
    }
}

impl Default for SettingsRecord {
    fn default() -> (r: SettingsRecord)
        ensures
            r == SettingsRecord::spec_default(),
    {
        SettingsRecord {
            intensity_bits: F32_ONE_BITS,
            color_aberration_bits: Mat3Bits::identity(),
        }
    }
}

} // verus!
