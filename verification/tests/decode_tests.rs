use vhs_pipeline::decode::decode;
use vhs_pipeline::field::{field_for_frame, num_image_rows, FieldSelector, UseField};
use vhs_pipeline::format::{decode_strategy, get_pixel_size_bytes, PixelBuffer, PixelFormat};

fn rgba8_buffer(width: usize, height: usize, data: Vec<u8>) -> PixelBuffer {
    PixelBuffer { data, width, height, row_stride: width * 4, format: PixelFormat::RGBA8Fixed }
}

#[test]
fn pixel_sizes_match_the_table() {
    assert_eq!(get_pixel_size_bytes(&PixelFormat::BGRA8Fixed), Some(4));
    assert_eq!(get_pixel_size_bytes(&PixelFormat::RGBA8Fixed), Some(4));
    assert_eq!(get_pixel_size_bytes(&PixelFormat::RGBA16Fixed), Some(8));
    assert_eq!(get_pixel_size_bytes(&PixelFormat::RGBA16Float), Some(8));
    assert_eq!(get_pixel_size_bytes(&PixelFormat::RGBA32Float), Some(16));
    assert_eq!(get_pixel_size_bytes(&PixelFormat::RG8Fixed), Some(2));
    assert_eq!(get_pixel_size_bytes(&PixelFormat::RG16Fixed), Some(4));
    assert_eq!(get_pixel_size_bytes(&PixelFormat::RG16Float), Some(4));
    assert_eq!(get_pixel_size_bytes(&PixelFormat::RG32Float), Some(8));
    assert_eq!(get_pixel_size_bytes(&PixelFormat::A8Fixed), Some(1));
    assert_eq!(get_pixel_size_bytes(&PixelFormat::A16Fixed), Some(2));
    assert_eq!(get_pixel_size_bytes(&PixelFormat::A16Float), Some(2));
    assert_eq!(get_pixel_size_bytes(&PixelFormat::A32Float), Some(4));
    assert_eq!(get_pixel_size_bytes(&PixelFormat::RGB10A2Fixed), Some(4));
    assert_eq!(get_pixel_size_bytes(&PixelFormat::RGB11Float), Some(4));
    assert_eq!(get_pixel_size_bytes(&PixelFormat::Mono8Fixed), None);
    assert_eq!(get_pixel_size_bytes(&PixelFormat::Invalid), None);
}

#[test]
fn exactly_four_formats_are_decodable() {
    assert!(decode_strategy(&PixelFormat::RGBA8Fixed).is_some());
    assert!(decode_strategy(&PixelFormat::BGRA8Fixed).is_some());
    assert!(decode_strategy(&PixelFormat::RGBA16Fixed).is_some());
    assert!(decode_strategy(&PixelFormat::RGBA32Float).is_some());
    assert!(decode_strategy(&PixelFormat::RGBA16Float).is_none());
    assert!(decode_strategy(&PixelFormat::RG8Fixed).is_none());
    assert!(decode_strategy(&PixelFormat::A8Fixed).is_none());
    assert!(decode_strategy(&PixelFormat::RGB10A2Fixed).is_none());
}

#[test]
fn unsupported_formats_decode_to_nothing() {
    let unsupported = [
        PixelFormat::RGBA16Float,
        PixelFormat::RG8Fixed,
        PixelFormat::RG16Fixed,
        PixelFormat::RG16Float,
        PixelFormat::RG32Float,
        PixelFormat::A8Fixed,
        PixelFormat::A16Fixed,
        PixelFormat::A16Float,
        PixelFormat::A32Float,
        PixelFormat::RGB10A2Fixed,
        PixelFormat::RGB11Float,
        PixelFormat::Mono8Fixed,
        PixelFormat::Mono16Fixed,
        PixelFormat::Mono16Float,
        PixelFormat::Mono32Float,
        PixelFormat::Invalid,
    ];
    for format in unsupported {
        let buf = PixelBuffer {
            data: vec![0u8; 64],
            width: 2,
            height: 2,
            row_stride: 16,
            format,
        };
        assert!(decode(&buf, FieldSelector::All).is_none());
    }
}

#[test]
fn short_buffer_is_rejected_not_read_past() {
    // Declared 2x2 RGBA8 needs 16 bytes; hand only 15.
    let buf = rgba8_buffer(2, 2, vec![7u8; 15]);
    assert!(decode(&buf, FieldSelector::All).is_none());
    // A stride shorter than one row of pixels is rejected too.
    let buf2 = PixelBuffer {
        data: vec![7u8; 64],
        width: 4,
        height: 2,
        row_stride: 15,
        format: PixelFormat::RGBA8Fixed,
    };
    assert!(decode(&buf2, FieldSelector::All).is_none());
}

#[test]
fn zero_sized_buffers_decode_to_empty_planes() {
    let buf = rgba8_buffer(0, 4, Vec::new());
    let p = decode(&buf, FieldSelector::All).expect("empty is valid");
    assert_eq!(p.luma.len(), 0);
    let buf2 = rgba8_buffer(4, 0, Vec::new());
    let p2 = decode(&buf2, FieldSelector::Lower).expect("empty is valid");
    assert_eq!(p2.chroma_q.len(), 0);
}

#[test]
fn plane_sizing_covers_both_height_parities() {
    for (height, field, want_rows) in [
        (4usize, FieldSelector::Upper, 2usize),
        (5, FieldSelector::Upper, 3),
        (4, FieldSelector::Lower, 2),
        (5, FieldSelector::Lower, 2),
        (5, FieldSelector::All, 5),
        (5, FieldSelector::InterleavedUpper, 5),
        (5, FieldSelector::InterleavedLower, 5),
    ] {
        assert_eq!(num_image_rows(height, field), want_rows);
        let width = 3usize;
        let buf = rgba8_buffer(width, height, vec![0u8; width * 4 * height]);
        let p = decode(&buf, field).expect("decodable");
        assert_eq!(p.luma.len(), width * want_rows);
        assert_eq!(p.chroma_i.len(), width * want_rows);
        assert_eq!(p.chroma_q.len(), width * want_rows);
    }
}

#[test]
fn rgba8_components_land_in_canonical_planes() {
    // One 2x1 image: pixel0 = (1,2,3,4), pixel1 = (5,6,7,8).
    let buf = rgba8_buffer(2, 1, vec![1, 2, 3, 4, 5, 6, 7, 8]);
    let p = decode(&buf, FieldSelector::All).unwrap();
    assert_eq!(p.luma, vec![1, 5]);
    assert_eq!(p.chroma_i, vec![2, 6]);
    assert_eq!(p.chroma_q, vec![3, 7]);
}

#[test]
fn bgra8_red_and_blue_are_unswapped() {
    let buf = PixelBuffer {
        data: vec![1, 2, 3, 4, 5, 6, 7, 8],
        width: 2,
        height: 1,
        row_stride: 8,
        format: PixelFormat::BGRA8Fixed,
    };
    let p = decode(&buf, FieldSelector::All).unwrap();
    // Stored order is B,G,R,A; the red plane gets the third byte.
    assert_eq!(p.luma, vec![3, 7]);
    assert_eq!(p.chroma_i, vec![2, 6]);
    assert_eq!(p.chroma_q, vec![1, 5]);
}

#[test]
fn row_padding_in_the_stride_is_skipped() {
    // 1x2 RGBA8 with a 6-byte stride: two padding bytes end each row.
    let buf = PixelBuffer {
        data: vec![10, 11, 12, 13, 99, 99, 20, 21, 22, 23, 99, 99],
        width: 1,
        height: 2,
        row_stride: 6,
        format: PixelFormat::RGBA8Fixed,
    };
    let p = decode(&buf, FieldSelector::All).unwrap();
    assert_eq!(p.luma, vec![10, 20]);
    assert_eq!(p.chroma_i, vec![11, 21]);
    assert_eq!(p.chroma_q, vec![12, 22]);
}

#[test]
fn field_selection_keeps_only_the_selected_rows() {
    // 1x4 RGBA8, rows carry 0,1,2,3 in their red byte.
    let mut data = Vec::new();
    for row in 0u8..4 {
        data.extend_from_slice(&[row, 100 + row, 200u8.wrapping_add(row), 255]);
    }
    let buf = rgba8_buffer(1, 4, data);
    let upper = decode(&buf, FieldSelector::Upper).unwrap();
    assert_eq!(upper.luma, vec![0, 2]);
    let lower = decode(&buf, FieldSelector::Lower).unwrap();
    assert_eq!(lower.luma, vec![1, 3]);
    let all = decode(&buf, FieldSelector::All).unwrap();
    assert_eq!(all.luma, vec![0, 1, 2, 3]);
}

#[test]
fn sixteen_bit_components_read_little_endian() {
    // 1x1 RGBA16: R=0x0201, G=0x0403, B=0x0605, A=0x0807.
    let buf = PixelBuffer {
        data: vec![1, 2, 3, 4, 5, 6, 7, 8],
        width: 1,
        height: 1,
        row_stride: 8,
        format: PixelFormat::RGBA16Fixed,
    };
    let p = decode(&buf, FieldSelector::All).unwrap();
    assert_eq!(p.luma, vec![0x0201]);
    assert_eq!(p.chroma_i, vec![0x0403]);
    assert_eq!(p.chroma_q, vec![0x0605]);
}

#[test]
fn float_components_are_carried_as_words() {
    // 1x1 RGBA32Float: each component is its 4-byte bit pattern.
    let r = 0.5f32.to_bits().to_le_bytes();
    let g = 1.0f32.to_bits().to_le_bytes();
    let b = (-2.0f32).to_bits().to_le_bytes();
    let a = 1.0f32.to_bits().to_le_bytes();
    let mut data = Vec::new();
    data.extend_from_slice(&r);
    data.extend_from_slice(&g);
    data.extend_from_slice(&b);
    data.extend_from_slice(&a);
    let buf = PixelBuffer {
        data,
        width: 1,
        height: 1,
        row_stride: 16,
        format: PixelFormat::RGBA32Float,
    };
    let p = decode(&buf, FieldSelector::All).unwrap();
    assert_eq!(p.luma, vec![0.5f32.to_bits()]);
    assert_eq!(p.chroma_i, vec![1.0f32.to_bits()]);
    assert_eq!(p.chroma_q, vec![(-2.0f32).to_bits()]);
}

#[test]
fn alternating_policy_switches_field_by_frame_parity() {
    assert_eq!(field_for_frame(&UseField::Alternating, 0), FieldSelector::Upper);
    assert_eq!(field_for_frame(&UseField::Alternating, 1), FieldSelector::Lower);
    assert_eq!(field_for_frame(&UseField::Alternating, 2), FieldSelector::Upper);
    assert_eq!(field_for_frame(&UseField::Both, 7), FieldSelector::All);
    assert_eq!(field_for_frame(&UseField::Upper, 7), FieldSelector::Upper);
    assert_eq!(field_for_frame(&UseField::Lower, 8), FieldSelector::Lower);
    assert_eq!(
        field_for_frame(&UseField::InterleavedUpper, 3),
        FieldSelector::InterleavedUpper
    );
    assert_eq!(
        field_for_frame(&UseField::InterleavedLower, 3),
        FieldSelector::InterleavedLower
    );
}
