use minimal_d3d11::layout::{
    buffer_byte_width, constant_buffer_width, index_count, texture_row_pitch, BYTES_PER_FLOAT,
    BYTES_PER_TEXEL, COLOR_FLOATS, COLOR_OFFSET, FLOATS_PER_VERTEX, NORMAL_FLOATS, NORMAL_OFFSET,
    POSITION_FLOATS, POSITION_OFFSET, TEXCOORD_FLOATS, TEXCOORD_OFFSET, VERTEX_STRIDE,
};

#[test]
fn vertex_stride_is_eleven_floats() {
    assert_eq!(FLOATS_PER_VERTEX, 11);
    assert_eq!(BYTES_PER_FLOAT, 4);
    assert_eq!(VERTEX_STRIDE, 44);
}

#[test]
fn constants_of_two_matrices_and_a_vector_take_144_bytes() {
    // Two 4x4 float matrices and three floats: 140 bytes.
    assert_eq!(constant_buffer_width(2 * 64 + 12), 144);
}

#[test]
fn constant_buffer_width_keeps_multiples_of_16() {
    assert_eq!(constant_buffer_width(0), 0);
    assert_eq!(constant_buffer_width(16), 16);
    assert_eq!(constant_buffer_width(144), 144);
}

#[test]
fn constant_buffer_width_rounds_up() {
    assert_eq!(constant_buffer_width(1), 16);
    assert_eq!(constant_buffer_width(15), 16);
    assert_eq!(constant_buffer_width(17), 32);
}

#[test]
fn constant_buffer_width_at_the_32_bit_edge() {
    assert_eq!(constant_buffer_width(0xffff_fff0), 0xffff_fff0);
    // Past the edge the padded size keeps only its low 32 bits. Where `usize`
    // has 32 bits, the padding itself would overflow there, which the
    // function's precondition rules out, so the case is taken only on wider
    // targets.
    if usize::BITS > 32 {
        let size: usize = 0xffff_fff1;
        assert_eq!(constant_buffer_width(size), 0);
    }
}

#[test]
fn texture_row_pitch_is_four_bytes_per_texel() {
    assert_eq!(BYTES_PER_TEXEL, 4);
    assert_eq!(texture_row_pitch(0), 0);
    assert_eq!(texture_row_pitch(256), 1024);
    assert_eq!(texture_row_pitch(u32::MAX / 4), u32::MAX - 3);
}

#[test]
fn vertex_elements_are_packed_one_after_another() {
    assert_eq!(POSITION_OFFSET, 0);
    assert_eq!(NORMAL_OFFSET, 12);
    assert_eq!(TEXCOORD_OFFSET, 24);
    assert_eq!(COLOR_OFFSET, 32);
    assert_eq!(POSITION_FLOATS + NORMAL_FLOATS + TEXCOORD_FLOATS + COLOR_FLOATS, FLOATS_PER_VERTEX);
    assert_eq!(COLOR_OFFSET + COLOR_FLOATS * BYTES_PER_FLOAT, VERTEX_STRIDE);
}

#[test]
fn buffer_byte_width_of_small_buffers() {
    // 24 vertices of 11 floats, and 36 indices of 4 bytes.
    assert_eq!(buffer_byte_width(24 * 11, 4), 1056);
    assert_eq!(buffer_byte_width(36, 4), 144);
    assert_eq!(buffer_byte_width(0, 4), 0);
    assert_eq!(buffer_byte_width(7, 1), 7);
}

#[test]
fn buffer_byte_width_keeps_the_low_32_bits() {
    assert_eq!(buffer_byte_width(0x4000_0000, 3), 0xc000_0000);
    if usize::BITS > 32 {
        let count: usize = 0x4000_0001;
        // 0x1_0000_0004 bytes
        assert_eq!(buffer_byte_width(count, 4), 4);
    }
}

#[test]
fn index_count_of_small_buffers() {
    assert_eq!(index_count(0), 0);
    assert_eq!(index_count(36), 36);
    assert_eq!(index_count(u32::MAX as usize), u32::MAX);
}

#[test]
fn index_count_keeps_the_low_32_bits() {
    if usize::BITS > 32 {
        let len: u64 = 0x1_0000_0005;
        assert_eq!(index_count(len as usize), 5);
    }
}
