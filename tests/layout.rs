use oreb::layout::{index_bytes, push_word, settings_bytes, vertex_bytes, PaintSettingsBits, VertexBits};

fn vertex(x: f32, y: f32, u: f32, v: f32) -> VertexBits {
    VertexBits { x: x.to_bits(), y: y.to_bits(), z: 0.0f32.to_bits(), u: u.to_bits(), v: v.to_bits() }
}

#[test]
fn word_is_little_endian() {
    let mut out = vec![9u8];
    push_word(&mut out, 0x0403_0201);
    assert_eq!(out, vec![9, 1, 2, 3, 4]);
}

#[test]
fn index_bytes_are_words_in_order() {
    let bytes = index_bytes(&vec![0, 1, 258]);
    assert_eq!(bytes, vec![0, 0, 0, 0, 1, 0, 0, 0, 2, 1, 0, 0]);
}

#[test]
fn vertex_layout_is_position_then_uv() {
    let v = vertex(1.0, -2.0, -0.5, 0.5);
    let bytes = vertex_bytes(&vec![v, v]);
    assert_eq!(bytes.len(), 40);
    let mut expected: Vec<u8> = Vec::new();
    for f in [1.0f32, -2.0, 0.0, -0.5, 0.5] {
        expected.extend_from_slice(&f.to_le_bytes());
    }
    assert_eq!(&bytes[0..20], &expected[..]);
    assert_eq!(&bytes[20..40], &expected[..]);
}

#[test]
fn empty_vertex_stream_has_no_bytes() {
    assert!(vertex_bytes(&Vec::new()).is_empty());
}

#[test]
fn settings_block_is_padded_to_forty_eight_bytes() {
    let s = PaintSettingsBits {
        edge: [0.0f32.to_bits(), 0.0f32.to_bits(), 0.0f32.to_bits(), 1.0f32.to_bits()],
        fill: [0.2f32.to_bits(), 0.2f32.to_bits(), 0.2f32.to_bits(), 0.5f32.to_bits()],
        line_width: 8.0f32.to_bits(),
    };
    let bytes = settings_bytes(&s);
    assert_eq!(bytes.len(), 48);
    let mut expected: Vec<u8> = Vec::new();
    for f in [0.0f32, 0.0, 0.0, 1.0, 0.2, 0.2, 0.2, 0.5, 8.0] {
        expected.extend_from_slice(&f.to_le_bytes());
    }
    expected.extend_from_slice(&[0u8; 12]);
    assert_eq!(bytes, expected);
}
