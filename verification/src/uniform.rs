//! Byte layout of the settings record in uniform memory.
//!
//! The shader reads the record as a fixed-layout uniform block: the
//! intensity float first, then the nine matrix floats column by column,
//! each as four little-endian bytes. On targets that require uniform
//! structs to be 16-byte aligned, two trailing padding floats round the
//! block up from 40 to 48 bytes. The serialized size and field order must
//! match the shader exactly; a mismatch is a fatal setup error caught when
//! the pipeline is built, so both directions of the layout are pinned down
//! here and proved to round-trip.

use vstd::prelude::*;

use crate::settings::ColumnBits;
use crate::settings::Mat3Bits;
use crate::settings::SettingsRecord;

verus! {

/// How the record is laid out in uniform memory.
#[derive(Clone, Copy, PartialEq, Eq, Structural, Debug)]
pub enum UniformLayout {
    /// Ten floats, packed: 40 bytes.
    Tight,
    /// Ten floats plus two padding floats, for targets that require
    /// 16-byte aligned uniform structs: 48 bytes.
    Aligned16,
}

/// Serialized size of a settings record under the given layout.
pub open spec fn uniform_size(layout: UniformLayout) -> nat {
    match layout {
        UniformLayout::Tight => 40,
        UniformLayout::Aligned16 => 48,
    }
}

pub fn uniform_size_bytes(layout: UniformLayout) -> (n: usize)
    ensures
        n == uniform_size(layout),
{
    match layout {
        UniformLayout::Tight => 40,
        UniformLayout::Aligned16 => 48,
    }
}

/// The four little-endian bytes of a 32-bit word.
pub open spec fn u32_le_bytes(x: u32) -> Seq<u8> {
    seq![
        (x & 0xff) as u8,
        ((x >> 8) & 0xff) as u8,
        ((x >> 16) & 0xff) as u8,
        ((x >> 24) & 0xff) as u8,
    ]
}

/// The 32-bit word read from four little-endian bytes.
pub open spec fn u32_from_le_bytes(b0: u8, b1: u8, b2: u8, b3: u8) -> u32 {
    (b0 as u32) | ((b1 as u32) << 8) | ((b2 as u32) << 16) | ((b3 as u32) << 24)
}

/// Reading back the four little-endian bytes of a word yields the word.
pub proof fn lemma_u32_le_round_trip(x: u32)
    ensures
        u32_from_le_bytes(
            (x & 0xff) as u8,
            ((x >> 8) & 0xff) as u8,
            ((x >> 16) & 0xff) as u8,
            ((x >> 24) & 0xff) as u8,
        ) == x,
{
    assert(((x & 0xff) as u8) as u32 | ((((x >> 8) & 0xff) as u8) as u32) << 8 | ((((x >> 16)
        & 0xff) as u8) as u32) << 16 | ((((x >> 24) & 0xff) as u8) as u32) << 24 == x)
        by (bit_vector);
}

/// The serialized bytes of a settings record: intensity, then the matrix
/// column by column, then the padding floats where the layout asks for them.
pub open spec fn uniform_bytes(s: SettingsRecord, layout: UniformLayout) -> Seq<u8> {
    let m = s.color_aberration_bits;
    let body = u32_le_bytes(s.intensity_bits) + u32_le_bytes(m.x_axis.x) + u32_le_bytes(m.x_axis.y)
        + u32_le_bytes(m.x_axis.z) + u32_le_bytes(m.y_axis.x) + u32_le_bytes(m.y_axis.y)
        + u32_le_bytes(m.y_axis.z) + u32_le_bytes(m.z_axis.x) + u32_le_bytes(m.z_axis.y)
        + u32_le_bytes(m.z_axis.z);
    match layout {
        UniformLayout::Tight => body,
        UniformLayout::Aligned16 => body + u32_le_bytes(0) + u32_le_bytes(0),
    }
}

/// The word at index `k` of a serialized block, read little-endian.
pub open spec fn word_at(b: Seq<u8>, k: int) -> u32 {
    u32_from_le_bytes(b[4 * k], b[4 * k + 1], b[4 * k + 2], b[4 * k + 3])
}

/// The record read back from a serialized block, or `None` when the block
/// does not have exactly the layout's size. Padding bytes carry no data and
/// are not inspected.
pub open spec fn parse_uniform(b: Seq<u8>, layout: UniformLayout) -> Option<SettingsRecord> {
    if b.len() == uniform_size(layout) {
        Some(
            SettingsRecord {
                intensity_bits: word_at(b, 0),
                color_aberration_bits: Mat3Bits {
                    x_axis: ColumnBits { x: word_at(b, 1), y: word_at(b, 2), z: word_at(b, 3) },
                    y_axis: ColumnBits { x: word_at(b, 4), y: word_at(b, 5), z: word_at(b, 6) },
                    z_axis: ColumnBits { x: word_at(b, 7), y: word_at(b, 8), z: word_at(b, 9) },
                },
            },
        )
    } else {
        None
    }
}

fn push_u32_le(v: &mut Vec<u8>, x: u32)
    ensures
        final(v)@ == old(v)@ + u32_le_bytes(x),
{
    proof {
        assert(x & 0xff < 256 && (x >> 8) & 0xff < 256 && (x >> 16) & 0xff < 256 && (x >> 24)
            & 0xff < 256) by (bit_vector);
    }
    v.push((x & 0xff) as u8);
    v.push(((x >> 8) & 0xff) as u8);
    v.push(((x >> 16) & 0xff) as u8);
    v.push(((x >> 24) & 0xff) as u8);
    proof {
        assert(v@ =~= old(v)@ + u32_le_bytes(x));
    }
}

fn read_u32_le(bytes: &Vec<u8>, off: usize) -> (x: u32)
    requires
        off + 4 <= bytes@.len(),
    ensures
        x == u32_from_le_bytes(
            bytes@[off as int],
            bytes@[off as int + 1],
            bytes@[off as int + 2],
            bytes@[off as int + 3],
        ),
{
    let n: usize = bytes.len();
    assert(off + 4 <= n);
    let b0 = bytes[off];
    let b1 = bytes[off + 1];
    let b2 = bytes[off + 2];
    let b3 = bytes[off + 3];
    (b0 as u32) | ((b1 as u32) << 8) | ((b2 as u32) << 16) | ((b3 as u32) << 24)
}

impl SettingsRecord {
    /// Serializes the record into the uniform block the shader expects.
    /// Every bit pattern is written verbatim: an out-of-range intensity
    /// reaches the GPU unclamped.
    pub fn to_uniform_bytes(&self, layout: UniformLayout) -> (r: Vec<u8>)
        ensures
            r@ == uniform_bytes(*self, layout),
            r@.len() == uniform_size(layout),
    {
        let mut v: Vec<u8> = Vec::new();
        push_u32_le(&mut v, self.intensity_bits);
        push_u32_le(&mut v, self.color_aberration_bits.x_axis.x);
        push_u32_le(&mut v, self.color_aberration_bits.x_axis.y);
        push_u32_le(&mut v, self.color_aberration_bits.x_axis.z);
        push_u32_le(&mut v, self.color_aberration_bits.y_axis.x);
        push_u32_le(&mut v, self.color_aberration_bits.y_axis.y);
        push_u32_le(&mut v, self.color_aberration_bits.y_axis.z);
        push_u32_le(&mut v, self.color_aberration_bits.z_axis.x);
        push_u32_le(&mut v, self.color_aberration_bits.z_axis.y);
        push_u32_le(&mut v, self.color_aberration_bits.z_axis.z);
        match layout {
            UniformLayout::Tight => {},
            UniformLayout::Aligned16 => {
                push_u32_le(&mut v, 0);
                push_u32_le(&mut v, 0);
            },
        }
        proof {
            assert(v@ =~= uniform_bytes(*self, layout));
        }
        v
    }

    /// Reads a record back from a serialized uniform block. Returns `None`
    /// exactly when the block's length is not the layout's size.
    pub fn from_uniform_bytes(bytes: &Vec<u8>, layout: UniformLayout) -> (r: Option<
        SettingsRecord,
    >)
        ensures
            r == parse_uniform(bytes@, layout),
    {
        let size = uniform_size_bytes(layout);
        if bytes.len() != size {
            return None;
        }
        Some(
            SettingsRecord {
                intensity_bits: read_u32_le(bytes, 0),
                color_aberration_bits: Mat3Bits {
                    x_axis: ColumnBits {
                        x: read_u32_le(bytes, 4),
                        y: read_u32_le(bytes, 8),
                        z: read_u32_le(bytes, 12),
                    },
                    y_axis: ColumnBits {
                        x: read_u32_le(bytes, 16),
                        y: read_u32_le(bytes, 20),
                        z: read_u32_le(bytes, 24),
                    },
                    z_axis: ColumnBits {
                        x: read_u32_le(bytes, 28),
                        y: read_u32_le(bytes, 32),
                        z: read_u32_le(bytes, 36),
                    },
                },
            },
        )
    }
}

proof fn lemma_word_of_own_bytes(b: Seq<u8>, k: int, x: u32)
    requires
        0 <= k,
        4 * k + 4 <= b.len(),
        b.subrange(4 * k, 4 * k + 4) == u32_le_bytes(x),
    ensures
        word_at(b, k) == x,
{
    assert(b[4 * k] == u32_le_bytes(x)[0]);
    assert(b[4 * k + 1] == u32_le_bytes(x)[1]);
    assert(b[4 * k + 2] == u32_le_bytes(x)[2]);
    assert(b[4 * k + 3] == u32_le_bytes(x)[3]);
    lemma_u32_le_round_trip(x);
}

/// Serializing a record under a layout and parsing the bytes back yields
/// the record again, exactly, for every record and either layout.
pub proof fn lemma_uniform_round_trip(s: SettingsRecord, layout: UniformLayout)
    ensures
        parse_uniform(uniform_bytes(s, layout), layout) == Some(s),
{
    let b = uniform_bytes(s, layout);
    let m = s.color_aberration_bits;
    assert(b.len() == uniform_size(layout));
    assert(b.subrange(0, 4) =~= u32_le_bytes(s.intensity_bits));
    assert(b.subrange(4, 8) =~= u32_le_bytes(m.x_axis.x));
    assert(b.subrange(8, 12) =~= u32_le_bytes(m.x_axis.y));
    assert(b.subrange(12, 16) =~= u32_le_bytes(m.x_axis.z));
    assert(b.subrange(16, 20) =~= u32_le_bytes(m.y_axis.x));
    assert(b.subrange(20, 24) =~= u32_le_bytes(m.y_axis.y));
    assert(b.subrange(24, 28) =~= u32_le_bytes(m.y_axis.z));
    assert(b.subrange(28, 32) =~= u32_le_bytes(m.z_axis.x));
    assert(b.subrange(32, 36) =~= u32_le_bytes(m.z_axis.y));
    assert(b.subrange(36, 40) =~= u32_le_bytes(m.z_axis.z));
    lemma_word_of_own_bytes(b, 0, s.intensity_bits);
    lemma_word_of_own_bytes(b, 1, m.x_axis.x);
    lemma_word_of_own_bytes(b, 2, m.x_axis.y);
    lemma_word_of_own_bytes(b, 3, m.x_axis.z);
    lemma_word_of_own_bytes(b, 4, m.y_axis.x);
    lemma_word_of_own_bytes(b, 5, m.y_axis.y);
    lemma_word_of_own_bytes(b, 6, m.y_axis.z);
    lemma_word_of_own_bytes(b, 7, m.z_axis.x);
    lemma_word_of_own_bytes(b, 8, m.z_axis.y);
    lemma_word_of_own_bytes(b, 9, m.z_axis.z);
}

} // verus!
