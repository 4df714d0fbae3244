use wgpu_circles::circle::build_circle;
use wgpu_circles::scalar::Scalar;
use wgpu_circles::vertex::{
    vertex_bytes, Vertex, VertexAttribute, VertexFormat, VertexStepMode,
};

fn scalar(number: f32) -> Scalar {
    Scalar { bits: number.to_bits() }
}

fn color() -> [Scalar; 3] {
    [scalar(0.2), scalar(0.4), scalar(1.0)]
}

fn rim(points: usize) -> Vec<[Scalar; 2]> {
    (0..points).map(|i| [scalar(i as f32), scalar(-(i as f32))]).collect()
}

#[test]
fn circle_is_a_fan_around_its_centre() {
    let (vertices, indices) = build_circle(3, scalar(0.5), scalar(0.25), color(), &rim(4));
    assert_eq!(indices, vec![0, 1, 2, 0, 2, 3, 0, 3, 4]);
    assert_eq!(vertices.len(), 5);
    assert_eq!(vertices[0], Vertex { position: [scalar(0.5), scalar(0.25)], color: color() });
    for i in 0..4 {
        assert_eq!(vertices[i + 1], Vertex { position: rim(4)[i], color: color() });
    }
}

#[test]
fn circle_without_segments_has_no_triangles() {
    let (vertices, indices) = build_circle(0, scalar(0.0), scalar(0.0), color(), &rim(1));
    assert_eq!(vertices.len(), 2);
    assert!(indices.is_empty());
}

#[test]
fn indices_stay_among_the_vertices() {
    let (vertices, indices) = build_circle(64, scalar(0.0), scalar(0.0), color(), &rim(65));
    assert_eq!(vertices.len(), 66);
    assert_eq!(indices.len(), 192);
    assert!(indices.iter().all(|index| usize::from(*index) < vertices.len()));
    for v in 0..66u16 {
        assert!(indices.contains(&v));
    }
    for t in 0..63 {
        assert_eq!(indices[3 * t + 2], indices[3 * (t + 1) + 1]);
    }
}

#[test]
fn indices_wrap_after_sixteen_bits() {
    let segments = 65536u32;
    let (_, indices) =
        build_circle(segments, scalar(0.0), scalar(0.0), color(), &rim(segments as usize + 1));
    assert_eq!(indices[3 * 65534..3 * 65534 + 3], [0, 65535, 0]);
    assert_eq!(indices[3 * 65535..3 * 65535 + 3], [0, 0, 1]);
}

#[test]
fn layout_packs_position_and_color() {
    let layout = Vertex::desc();
    assert_eq!(layout.array_stride, 20);
    assert_eq!(layout.step_mode, VertexStepMode::Vertex);
    assert_eq!(
        layout.attributes,
        [
            VertexAttribute { format: VertexFormat::Float32x2, offset: 0, shader_location: 0 },
            VertexAttribute { format: VertexFormat::Float32x3, offset: 8, shader_location: 1 },
        ]
    );
}

#[test]
fn layout_reads_back_vertices() {
    let (vertices, _) = build_circle(2, scalar(0.5), scalar(0.25), color(), &rim(3));
    let bytes = vertex_bytes(&vertices);
    let layout = Vertex::desc();
    assert_eq!(bytes.len(), vertices.len() * layout.array_stride as usize);
    for (v, vertex) in vertices.iter().enumerate() {
        let parts: [&[Scalar]; 2] = [&vertex.position, &vertex.color];
        for (attribute, part) in layout.attributes.iter().zip(parts) {
            let start = v * layout.array_stride as usize + attribute.offset as usize;
            for (c, component) in part.iter().enumerate() {
                let at = start + 4 * c;
                assert_eq!(bytes[at..at + 4], component.bits.to_ne_bytes());
            }
        }
    }
}
