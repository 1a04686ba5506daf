//! Byte sizes and offsets of the data that the renderer hands to the GPU.

use vstd::prelude::*;

verus! {

/// Bytes in one 32-bit float.
pub const BYTES_PER_FLOAT: u32 = 4;

/// Floats in a vertex position.
pub const POSITION_FLOATS: u32 = 3;

/// Floats in a vertex normal.
pub const NORMAL_FLOATS: u32 = 3;

/// Floats in a texture coordinate.
pub const TEXCOORD_FLOATS: u32 = 2;

/// Floats in a vertex colour.
pub const COLOR_FLOATS: u32 = 3;

/// Floats in one vertex: position (3), normal (3), texture coordinate (2)
/// and colour (3).
pub const FLOATS_PER_VERTEX: u32 = 11;

/// Distance in bytes from one vertex to the next in the vertex buffer.
pub const VERTEX_STRIDE: u32 = FLOATS_PER_VERTEX * BYTES_PER_FLOAT;

/// Byte offset of the position within a vertex.
pub const POSITION_OFFSET: u32 = 0;

/// Byte offset of the normal: right after the position.
pub const NORMAL_OFFSET: u32 = POSITION_OFFSET + POSITION_FLOATS * BYTES_PER_FLOAT;

/// Byte offset of the texture coordinate: right after the normal.
pub const TEXCOORD_OFFSET: u32 = NORMAL_OFFSET + NORMAL_FLOATS * BYTES_PER_FLOAT;

/// Byte offset of the colour: right after the texture coordinate.
pub const COLOR_OFFSET: u32 = TEXCOORD_OFFSET + TEXCOORD_FLOATS * BYTES_PER_FLOAT;

/// Bytes in one texel of an 8-bit RGBA texture.
pub const BYTES_PER_TEXEL: u32 = 4;

/// The vertex is packed: its four elements lie one after the other from
/// byte 0 (at offsets 0, 12, 24 and 32), and the last one ends exactly at
/// the stride of 44 bytes, so the eleven floats fill the vertex with no gap.
pub proof fn vertex_layout_is_packed()
    ensures
        POSITION_OFFSET == 0,
        NORMAL_OFFSET == 12,
        TEXCOORD_OFFSET == 24,
        COLOR_OFFSET == 32,
        FLOATS_PER_VERTEX == POSITION_FLOATS + NORMAL_FLOATS + TEXCOORD_FLOATS + COLOR_FLOATS,
        COLOR_OFFSET + COLOR_FLOATS * BYTES_PER_FLOAT == VERTEX_STRIDE,
        VERTEX_STRIDE == 44,
{
}

/// Width that a constant buffer of `size` bytes is given: `size` rounded up
/// to a multiple of 16, kept to its low 32 bits.
pub open spec fn padded_width(size: nat) -> nat {
    ((size + 15) % 0x1_0000_0000) / 16 * 16
}

/// Byte width of a constant buffer that holds `size` bytes: `size` rounded
/// up to the next multiple of 16, as Direct3D asks of constant buffers.
pub fn constant_buffer_width(size: usize) -> (width: u32)
    requires
        size + 15 <= usize::MAX,
    ensures
        width == padded_width(size as nat),
        size + 15 < 0x1_0000_0000 ==> width % 16 == 0 && size <= width < size + 16,
{
    let padded: usize = (size + 0xf) & 0xffff_fff0;
    proof {
        let t: usize = (size + 15) as usize;
        let t64: u64 = t as u64;
        assert(((t & 0xffff_fff0usize) as u64) == (t64 & 0xffff_fff0u64)) by (bit_vector)
            requires
                t64 == t as u64,
        ;
        assert((t64 & 0xffff_fff0u64) == (t64 % 0x1_0000_0000u64) / 16 * 16) by (bit_vector);
    }
    padded as u32
}

/// Bytes in one row of a texture `width` texels wide.
pub fn texture_row_pitch(width: u32) -> (pitch: u32)
    requires
        width * BYTES_PER_TEXEL <= u32::MAX,
    ensures
        pitch == width * BYTES_PER_TEXEL,
{
    width * BYTES_PER_TEXEL
}

/// The low 32 bits of `n`, as a `u32` count for Direct3D.
pub open spec fn low_32_bits(n: nat) -> nat {
    n % 0x1_0000_0000
}

/// Proof that a `usize` cast to `u32` keeps its low 32 bits.
proof fn lemma_usize_as_u32(n: usize)
    ensures
        (n as u32) as nat == low_32_bits(n as nat),
{
    let n64: u64 = n as u64;
    assert((n as u32) == (n64 as u32)) by (bit_vector)
        requires
            n64 == n as u64,
    ;
    assert((n64 as u32) as u64 == n64 % 0x1_0000_0000u64) by (bit_vector);
}

/// Byte width of a buffer of `count` elements of `element_bytes` bytes each,
/// as the 32-bit width that Direct3D takes: the byte count's low 32 bits.
pub fn buffer_byte_width(count: usize, element_bytes: usize) -> (width: u32)
    requires
        count * element_bytes <= usize::MAX,
    ensures
        width == low_32_bits((count * element_bytes) as nat),
        count * element_bytes <= u32::MAX ==> width == count * element_bytes,
{
    let bytes: usize = count * element_bytes;
    proof {
        lemma_usize_as_u32(bytes);
    }
    bytes as u32
}

/// Number of indices to draw from an index buffer of `len` entries, as the
/// 32-bit count that Direct3D takes: the length's low 32 bits.
pub fn index_count(len: usize) -> (count: u32)
    ensures
        count == low_32_bits(len as nat),
        len <= u32::MAX ==> count == len,
{
    proof {
        lemma_usize_as_u32(len);
    }
    len as u32
}

} // verus!
