use ufo3000::misc::{
    create_vb_descriptor, read_word, vertex_format_size, Convert2Vec, VertexAttribute, VertexFormat,
};
use ufo3000::render_object::{DispatchIndirect, DrawIndirect};

#[test]
fn words_are_little_endian() {
    assert_eq!(read_word(&[0x78, 0x56, 0x34, 0x12], 0), 0x1234_5678);
    assert_eq!(read_word(&[0, 0xff, 0xff, 0xff, 0xff], 1), u32::MAX);
    assert_eq!(u32::convert(&[1, 0, 0, 0, 2, 1, 0, 0, 9]), vec![1, 258]);
    assert_eq!(u32::convert(&[]), Vec::<u32>::new());
    assert_eq!(u32::convert(&[1, 2, 3]), Vec::<u32>::new());
}

#[test]
fn draw_records_from_bytes() {
    let mut bytes: Vec<u8> = Vec::new();
    for w in [3u32, 1, 0, 0, 6, 2, 3, 1] {
        bytes.extend_from_slice(&w.to_le_bytes());
    }
    bytes.push(0xaa);
    let draws = DrawIndirect::convert(&bytes);
    assert_eq!(
        draws,
        vec![
            DrawIndirect { vertex_count: 3, instance_count: 1, base_vertex: 0, base_instance: 0 },
            DrawIndirect { vertex_count: 6, instance_count: 2, base_vertex: 3, base_instance: 1 },
        ]
    );
}

#[test]
fn dispatch_records_from_bytes() {
    let mut bytes: Vec<u8> = Vec::new();
    for w in [8u32, 4, 1, 0x0102_0304, 0, 7] {
        bytes.extend_from_slice(&w.to_le_bytes());
    }
    let dispatches = DispatchIndirect::convert(&bytes);
    assert_eq!(
        dispatches,
        vec![
            DispatchIndirect { x: 8, y: 4, z: 1 },
            DispatchIndirect { x: 0x0102_0304, y: 0, z: 7 },
        ]
    );
    assert_eq!(DispatchIndirect::convert(&bytes[..11]), vec![]);
}

#[test]
fn vertex_attributes_are_packed_in_order() {
    let formats = vec![VertexFormat::Float32x3, VertexFormat::Unorm8x4, VertexFormat::Uint32, VertexFormat::Sint16x2];
    let (stride, attributes) = create_vb_descriptor(&formats);
    assert_eq!(stride, 24);
    assert_eq!(
        attributes,
        vec![
            VertexAttribute { format: VertexFormat::Float32x3, offset: 0, shader_location: 0 },
            VertexAttribute { format: VertexFormat::Unorm8x4, offset: 12, shader_location: 1 },
            VertexAttribute { format: VertexFormat::Uint32, offset: 16, shader_location: 2 },
            VertexAttribute { format: VertexFormat::Sint16x2, offset: 20, shader_location: 3 },
        ]
    );
    assert_eq!(create_vb_descriptor(&vec![]), (0, vec![]));
    assert_eq!(vertex_format_size(VertexFormat::Float32x4), 16);
    assert_eq!(vertex_format_size(VertexFormat::Uint16x4), 8);
    assert_eq!(vertex_format_size(VertexFormat::Snorm8x2), 2);
}
