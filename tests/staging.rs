use oreb::geometry::{assemble, GeometryStream, Triangle, CELL_COUNT};
use oreb::layout::VertexBits;
use oreb::staging::{CapacityError, DrawPlan, StagingArena, DEFAULT_BUFFER_CAPACITY};

fn triangles(n: u32) -> Vec<Triangle> {
    (0..n)
        .map(|k| {
            let v = VertexBits { x: k, y: k, z: 0, u: k, v: k };
            Triangle { a: v, b: v, c: v }
        })
        .collect()
}

#[test]
fn empty_renderer_draws_nothing() {
    let arena = StagingArena::with_default_capacity();
    assert!(!arena.is_ready());
    assert_eq!(arena.draw_plan(), DrawPlan { vertex_bytes: 0, index_bytes: 0, index_count: 0 });
}

#[test]
fn empty_upload_succeeds_and_draws_nothing() {
    let mut arena = StagingArena::with_default_capacity();
    let staged = arena.upload_geometry(&assemble(&Vec::new())).unwrap();
    assert!(staged.vertices.is_empty() && staged.indices.is_empty());
    assert!(arena.is_ready());
    assert_eq!(arena.draw_plan().index_count, 0);
}

#[test]
fn hundred_rectangles_fit_the_default_buffers() {
    let mut arena = StagingArena::with_default_capacity();
    assert_eq!(DEFAULT_BUFFER_CAPACITY, 6000);
    assert_eq!(CELL_COUNT, 100);
    let staged = arena.upload_geometry(&assemble(&triangles(CELL_COUNT as u32))).unwrap();
    assert_eq!(staged.vertices.len(), 6000);
    assert_eq!(staged.indices.len(), 1200);
    assert_eq!(arena.vertex_count(), 300);
    assert_eq!(arena.index_count(), 300);
    assert_eq!(arena.draw_plan(), DrawPlan { vertex_bytes: 6000, index_bytes: 1200, index_count: 300 });
}

#[test]
fn oversized_upload_is_refused_and_keeps_counts() {
    let mut arena = StagingArena::with_default_capacity();
    arena.upload_geometry(&assemble(&triangles(2))).unwrap();
    let err = arena.upload_geometry(&assemble(&triangles(101))).err().unwrap();
    assert_eq!(err, CapacityError::Vertices { count: 303, capacity: 6000 });
    assert_eq!(arena.vertex_count(), 6);
    assert_eq!(arena.index_count(), 6);
    arena.upload_geometry(&assemble(&triangles(5))).unwrap();
    assert_eq!(arena.vertex_count(), 15);
    assert_eq!(arena.index_count(), 15);
}

#[test]
fn oversized_index_stream_is_refused() {
    let mut arena = StagingArena::new(6000, 8);
    let v = VertexBits { x: 0, y: 0, z: 0, u: 0, v: 0 };
    let stream = GeometryStream { vertices: vec![v], indices: vec![0, 0, 0] };
    let err = arena.upload_geometry(&stream).err().unwrap();
    assert_eq!(err, CapacityError::Indices { count: 3, capacity: 8 });
    assert!(!arena.is_ready());
    assert_eq!(arena.index_count(), 0);
}
