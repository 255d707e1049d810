use modelassetlib::bits::u32_to_u8;
use modelassetlib::error::GltfError;
use modelassetlib::loaded::Dimensions;
use modelassetlib::loaded::LoadedGltf;
use modelassetlib::loaded::LoadedGltfAccessor;
use modelassetlib::loaded::LoadedGltfAccessorDatum;
use modelassetlib::loaded::LoadedGltfBuffer;
use modelassetlib::loaded::LoadedGltfBufferView;

fn graph_with_buffer(bytes: Vec<u8>, view: LoadedGltfBufferView) -> LoadedGltf {
    let mut graph = LoadedGltf::new();
    graph
        .buffers
        .push(LoadedGltfBuffer::new(0, String::from("data.bin"), bytes));
    graph.buffer_views.push(view);
    graph
}

fn push_f32(bytes: &mut Vec<u8>, x: f32) {
    let (b0, b1, b2, b3) = u32_to_u8(x.to_bits());
    bytes.push(b0);
    bytes.push(b1);
    bytes.push(b2);
    bytes.push(b3);
}

#[test]
fn strided_read_picks_the_right_window() {
    let bytes: Vec<u8> = (0u16..=255).map(|b| b as u8).collect();
    let view = LoadedGltfBufferView::new(0, 0, 4, 4, Some(8), None);
    let graph = graph_with_buffer(bytes, view);
    let element = graph.buffer_views[0].load_data_strided(&graph, 2);
    assert_eq!(element, Ok(vec![20, 21, 22, 23]));
}

#[test]
fn unstrided_read_copies_the_region_at_its_offset() {
    let bytes: Vec<u8> = (0u16..=15).map(|b| b as u8).collect();
    let view = LoadedGltfBufferView::new(0, 0, 6, 4, None, None);
    let graph = graph_with_buffer(bytes, view);
    assert_eq!(graph.buffer_views[0].load_data(&graph), Ok(vec![6, 7, 8, 9]));
}

#[test]
fn strided_read_fails_past_the_buffer_end() {
    let bytes: Vec<u8> = (0u16..=31).map(|b| b as u8).collect();
    let view = LoadedGltfBufferView::new(0, 0, 4, 4, Some(8), None);
    let graph = graph_with_buffer(bytes, view);
    assert_eq!(graph.buffer_views[0].load_data_strided(&graph, 3), Ok(vec![28, 29, 30, 31]));
    assert_eq!(
        graph.buffer_views[0].load_data_strided(&graph, 4),
        Err(GltfError::OutOfRange)
    );
}

#[test]
fn strided_read_reports_a_dangling_buffer_index() {
    let mut graph = LoadedGltf::new();
    let view = LoadedGltfBufferView::new(0, 3, 0, 4, None, None);
    graph.buffer_views.push(view);
    assert_eq!(
        graph.buffer_views[0].load_data_strided(&graph, 0),
        Err(GltfError::DocumentMalformed)
    );
}

#[test]
fn strided_read_reports_an_unresolved_buffer() {
    let mut graph = LoadedGltf::new();
    graph
        .buffers
        .push(LoadedGltfBuffer::new_unresolved(0, String::from("gone.bin")));
    graph
        .buffer_views
        .push(LoadedGltfBufferView::new(0, 0, 0, 4, None, None));
    assert_eq!(
        graph.buffer_views[0].load_data_strided(&graph, 0),
        Err(GltfError::ResourceResolutionFailed)
    );
}

#[test]
fn scalar_accessor_decodes_three_floats() {
    let mut bytes = Vec::new();
    push_f32(&mut bytes, 1.0);
    push_f32(&mut bytes, 2.0);
    push_f32(&mut bytes, 3.0);
    let view = LoadedGltfBufferView::new(0, 0, 0, 4, Some(4), None);
    let graph = graph_with_buffer(bytes, view);
    let accessor = LoadedGltfAccessor::new(0, 0, 4, 3, None, None, Dimensions::Scalar);
    let data = accessor.load_data(&graph).unwrap();
    assert_eq!(
        data,
        vec![
            LoadedGltfAccessorDatum::Scalar(1.0f32.to_bits()),
            LoadedGltfAccessorDatum::Scalar(2.0f32.to_bits()),
            LoadedGltfAccessorDatum::Scalar(3.0f32.to_bits()),
        ]
    );
}

#[test]
fn vec3_accessor_decodes_components_in_order() {
    let source: [[f32; 3]; 3] = [[1.0, 2.0, 3.0], [4.0, 5.0, 6.0], [-7.0, 0.5, 8.25]];
    let mut bytes = Vec::new();
    for element in &source {
        for component in element {
            push_f32(&mut bytes, *component);
        }
    }
    assert_eq!(bytes.len(), 36);
    let view = LoadedGltfBufferView::new(0, 0, 0, 12, Some(12), None);
    let graph = graph_with_buffer(bytes, view);
    let accessor = LoadedGltfAccessor::new(0, 0, 12, 3, None, None, Dimensions::Vec3);
    let data = accessor.load_data(&graph).unwrap();
    assert_eq!(data.len(), 3);
    for (datum, expected) in data.iter().zip(source.iter()) {
        match datum {
            LoadedGltfAccessorDatum::Vec3(x, y, z) => {
                assert_eq!(f32::from_bits(*x), expected[0]);
                assert_eq!(f32::from_bits(*y), expected[1]);
                assert_eq!(f32::from_bits(*z), expected[2]);
            }
            _ => panic!("expected a Vec3 datum"),
        }
    }
}

#[test]
fn mat2_accessor_decodes_row_major_stream() {
    let mut bytes = Vec::new();
    for component in [1.0f32, 2.0, 3.0, 4.0] {
        push_f32(&mut bytes, component);
    }
    let view = LoadedGltfBufferView::new(0, 0, 0, 16, None, None);
    let graph = graph_with_buffer(bytes, view);
    let accessor = LoadedGltfAccessor::new(0, 0, 16, 1, None, None, Dimensions::Mat2);
    let data = accessor.load_data(&graph).unwrap();
    assert_eq!(
        data,
        vec![LoadedGltfAccessorDatum::Mat2(
            1.0f32.to_bits(),
            2.0f32.to_bits(),
            3.0f32.to_bits(),
            4.0f32.to_bits(),
        )]
    );
}

#[test]
fn empty_accessor_decodes_to_an_empty_sequence() {
    let view = LoadedGltfBufferView::new(0, 0, 0, 4, None, None);
    let graph = graph_with_buffer(vec![0, 0, 0, 0], view);
    let accessor = LoadedGltfAccessor::new(0, 0, 4, 0, None, None, Dimensions::Scalar);
    assert_eq!(accessor.load_data(&graph), Ok(Vec::new()));
}

#[test]
fn accessor_with_dangling_view_fails_as_malformed() {
    let graph = LoadedGltf::new();
    let accessor = LoadedGltfAccessor::new(0, 0, 4, 1, None, None, Dimensions::Scalar);
    assert_eq!(accessor.load_data(&graph), Err(GltfError::DocumentMalformed));
}

#[test]
fn accessor_over_unresolved_buffer_fails_as_resolution_failure() {
    let mut graph = LoadedGltf::new();
    graph
        .buffers
        .push(LoadedGltfBuffer::new_unresolved(0, String::from("gone.bin")));
    graph
        .buffer_views
        .push(LoadedGltfBufferView::new(0, 0, 0, 4, None, None));
    let accessor = LoadedGltfAccessor::new(0, 0, 4, 1, None, None, Dimensions::Scalar);
    assert_eq!(
        accessor.load_data(&graph),
        Err(GltfError::ResourceResolutionFailed)
    );
}

#[test]
fn accessor_with_narrow_view_fails_out_of_range() {
    let view = LoadedGltfBufferView::new(0, 0, 0, 8, None, None);
    let graph = graph_with_buffer(vec![0; 8], view);
    let accessor = LoadedGltfAccessor::new(0, 0, 12, 1, None, None, Dimensions::Vec3);
    assert_eq!(accessor.load_data(&graph), Err(GltfError::OutOfRange));
}

#[test]
fn repeated_decode_returns_equal_sequences() {
    let mut bytes = Vec::new();
    for component in [0.5f32, 1.5, 2.5, 3.5, 4.5, 5.5] {
        push_f32(&mut bytes, component);
    }
    let view = LoadedGltfBufferView::new(0, 0, 0, 8, Some(8), None);
    let graph = graph_with_buffer(bytes, view);
    let accessor = LoadedGltfAccessor::new(0, 0, 8, 3, None, None, Dimensions::Vec2);
    let first = accessor.load_data(&graph).unwrap();
    let second = accessor.load_data(&graph).unwrap();
    assert_eq!(first.len(), second.len());
    for (a, b) in first.iter().zip(second.iter()) {
        assert_eq!(a, b);
    }
}

#[test]
fn datum_dimension_matches_its_shape() {
    assert_eq!(LoadedGltfAccessorDatum::scalar_of(0).get_dimension(), 1);
    assert_eq!(LoadedGltfAccessorDatum::vec2_of(0, 0).get_dimension(), 2);
    assert_eq!(LoadedGltfAccessorDatum::vec3_of(0, 0, 0).get_dimension(), 3);
    assert_eq!(LoadedGltfAccessorDatum::vec4_of(0, 0, 0, 0).get_dimension(), 4);
    assert_eq!(LoadedGltfAccessorDatum::mat2_of(0, 0, 0, 0).get_dimension(), 2);
    assert_eq!(
        LoadedGltfAccessorDatum::mat3_of(0, 0, 0, 0, 0, 0, 0, 0, 0).get_dimension(),
        3
    );
    assert_eq!(
        LoadedGltfAccessorDatum::mat4_of(0, 0, 0, 0, 0, 0, 0, 0, 0, 0, 0, 0, 0, 0, 0, 0)
            .get_dimension(),
        4
    );
}

#[test]
fn component_counts_per_shape() {
    assert_eq!(Dimensions::Scalar.component_count(), 1);
    assert_eq!(Dimensions::Vec2.component_count(), 2);
    assert_eq!(Dimensions::Vec3.component_count(), 3);
    assert_eq!(Dimensions::Vec4.component_count(), 4);
    assert_eq!(Dimensions::Mat2.component_count(), 4);
    assert_eq!(Dimensions::Mat3.component_count(), 9);
    assert_eq!(Dimensions::Mat4.component_count(), 16);
}

#[test]
fn vec4_accessor_decodes_in_xyzw_order() {
    let mut bytes = Vec::new();
    for component in [1.0f32, 2.0, 3.0, 4.0] {
        push_f32(&mut bytes, component);
    }
    let view = LoadedGltfBufferView::new(0, 0, 0, 16, None, None);
    let graph = graph_with_buffer(bytes, view);
    let accessor = LoadedGltfAccessor::new(0, 0, 16, 1, None, None, Dimensions::Vec4);
    let data = accessor.load_data(&graph).unwrap();
    assert_eq!(
        data,
        vec![LoadedGltfAccessorDatum::Vec4(
            1.0f32.to_bits(),
            2.0f32.to_bits(),
            3.0f32.to_bits(),
            4.0f32.to_bits(),
        )]
    );
}

#[test]
fn mat4_accessor_decodes_sixteen_words_in_stream_order() {
    let source: Vec<f32> = (0..16).map(|k| k as f32).collect();
    let mut bytes = Vec::new();
    for component in &source {
        push_f32(&mut bytes, *component);
    }
    let view = LoadedGltfBufferView::new(0, 0, 0, 64, None, None);
    let graph = graph_with_buffer(bytes, view);
    let accessor = LoadedGltfAccessor::new(0, 0, 64, 1, None, None, Dimensions::Mat4);
    let data = accessor.load_data(&graph).unwrap();
    assert_eq!(data.len(), 1);
    match &data[0] {
        LoadedGltfAccessorDatum::Mat4(
            a00, a01, a02, a03, a10, a11, a12, a13, a20, a21, a22, a23, a30, a31, a32, a33,
        ) => {
            let words = [
                a00, a01, a02, a03, a10, a11, a12, a13, a20, a21, a22, a23, a30, a31, a32, a33,
            ];
            for (word, expected) in words.iter().zip(source.iter()) {
                assert_eq!(f32::from_bits(**word), *expected);
            }
        }
        _ => panic!("expected a Mat4 datum"),
    }
}

#[test]
fn absent_stride_reads_every_element_from_the_view_offset() {
    // With no stride declared, element reads do not advance: each element is
    // the window at the view's own offset.
    let mut bytes = Vec::new();
    push_f32(&mut bytes, 6.5);
    push_f32(&mut bytes, 7.5);
    let view = LoadedGltfBufferView::new(0, 0, 0, 4, None, None);
    let graph = graph_with_buffer(bytes, view);
    let accessor = LoadedGltfAccessor::new(0, 0, 4, 2, None, None, Dimensions::Scalar);
    let data = accessor.load_data(&graph).unwrap();
    assert_eq!(
        data,
        vec![
            LoadedGltfAccessorDatum::Scalar(6.5f32.to_bits()),
            LoadedGltfAccessorDatum::Scalar(6.5f32.to_bits()),
        ]
    );
}
