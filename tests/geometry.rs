use wgpu_tutorial::geometry::{Geometry, Vertex};
use wgpu_tutorial::layout::{packed_layout, VertexAttribute, VertexFormat};

#[test]
fn quad_indices_name_existing_vertices() {
    let g = Geometry::quad();
    let n = g.vertices.len();
    assert_eq!(n, 4);
    assert!(g.indices.iter().all(|&i| (i as usize) < n));
    assert_eq!(g.indices.len() % 3, 0);
}

#[test]
fn quad_counts() {
    let g = Geometry::quad();
    assert_eq!(g.num_vertices(), 4);
    assert_eq!(g.num_indices(), 6);
    assert_eq!(g.indices, vec![0u16, 2, 1, 1, 2, 3]);
}

#[test]
fn quad_corners() {
    let g = Geometry::quad();
    assert_eq!(g.vertices[0], Vertex { x: -1, y: -1, z: 0, u: -1, v: -1 });
    assert_eq!(g.vertices[1], Vertex { x: -1, y: 1, z: 0, u: -1, v: 1 });
    assert_eq!(g.vertices[2], Vertex { x: 1, y: -1, z: 0, u: 1, v: -1 });
    assert_eq!(g.vertices[3], Vertex { x: 1, y: 1, z: 0, u: 1, v: 1 });
}

#[test]
fn quad_triangles_run_counter_clockwise() {
    let g = Geometry::quad();
    for t in g.indices.chunks(3) {
        let a = g.vertices[t[0] as usize];
        let b = g.vertices[t[1] as usize];
        let c = g.vertices[t[2] as usize];
        let area2 = (b.x as i32 - a.x as i32) * (c.y as i32 - a.y as i32)
            - (b.y as i32 - a.y as i32) * (c.x as i32 - a.x as i32);
        assert_eq!(area2, 4);
    }
}

#[test]
fn index_bytes_hold_each_index_in_native_order() {
    let g = Geometry::quad();
    let b = g.index_bytes();
    assert_eq!(b.len(), 12);
    let back: Vec<u16> = b.chunks(2).map(|p| u16::from_ne_bytes([p[0], p[1]])).collect();
    assert_eq!(back, vec![0u16, 2, 1, 1, 2, 3]);
}

#[test]
fn vertex_desc_is_tightly_packed() {
    let l = Vertex::desc();
    assert_eq!(l.array_stride, 20);
    assert_eq!(
        l.attributes,
        vec![
            VertexAttribute { format: VertexFormat::Float32x3, offset: 0, shader_location: 0 },
            VertexAttribute { format: VertexFormat::Float32x2, offset: 12, shader_location: 1 },
        ]
    );
}

#[test]
fn packed_layout_of_nothing_is_empty() {
    let l = packed_layout(&vec![]);
    assert_eq!(l.array_stride, 0);
    assert!(l.attributes.is_empty());
}

#[test]
fn packed_layout_offsets_accumulate() {
    let l = packed_layout(&vec![VertexFormat::Float32x2, VertexFormat::Float32x2, VertexFormat::Float32x3]);
    assert_eq!(l.array_stride, 28);
    let offsets: Vec<u64> = l.attributes.iter().map(|a| a.offset).collect();
    assert_eq!(offsets, vec![0, 8, 16]);
    let locations: Vec<u32> = l.attributes.iter().map(|a| a.shader_location).collect();
    assert_eq!(locations, vec![0, 1, 2]);
    assert_eq!(VertexFormat::Float32x3.size(), 12);
    assert_eq!(VertexFormat::Float32x2.size(), 8);
}
