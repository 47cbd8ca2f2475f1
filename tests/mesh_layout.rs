use gla::mesh::{mesh_layout, vertex_data, AttributeLayout, MeshLayout};

#[test]
fn layout_of_one_triangle() {
    let layout = mesh_layout(9, 9, 3);
    assert_eq!(
        layout,
        Some(MeshLayout {
            vertex_bytes: 72,
            index_bytes: 12,
            position: AttributeLayout { location: 0, components: 3, stride: 12, offset: 0 },
            normal: AttributeLayout { location: 1, components: 3, stride: 12, offset: 36 },
        })
    );
}

#[test]
fn layout_of_empty_mesh() {
    let layout = mesh_layout(0, 0, 0).unwrap();
    assert_eq!(layout.vertex_bytes, 0);
    assert_eq!(layout.index_bytes, 0);
    assert_eq!(layout.normal.offset, 0);
}

#[test]
fn normals_start_after_all_positions() {
    let layout = mesh_layout(30, 30, 6).unwrap();
    assert_eq!(layout.normal.offset, 120);
    assert_eq!(layout.vertex_bytes, 240);
    assert_eq!(layout.index_bytes, 24);
}

#[test]
fn mesh_without_normals_is_refused() {
    assert_eq!(mesh_layout(9, 0, 3), None);
}

#[test]
fn fewer_normals_than_positions_are_refused() {
    assert_eq!(mesh_layout(30, 12, 6), None);
    assert_eq!(mesh_layout(9, 12, 3), None);
}

#[test]
fn partial_vertex_is_refused() {
    assert_eq!(mesh_layout(10, 10, 3), None);
}

#[test]
fn largest_vertex_buffer_that_fits() {
    let most = isize::MAX as usize / 8 / 3 * 3;
    let layout = mesh_layout(most, most, 0).unwrap();
    assert_eq!(layout.vertex_bytes as usize, most * 8);
    assert_eq!(layout.normal.offset, most * 4);
}

#[test]
fn vertex_buffer_too_large() {
    let over = isize::MAX as usize / 8 / 3 * 3 + 3;
    assert_eq!(mesh_layout(over, over, 0), None);
    let huge = usize::MAX / 3 * 3;
    assert_eq!(mesh_layout(huge, huge, 0), None);
}

#[test]
fn index_buffer_too_large() {
    assert_eq!(mesh_layout(3, 3, isize::MAX as usize / 4 + 1), None);
}

#[test]
fn vertex_data_puts_positions_before_normals() {
    let data = vertex_data(vec![1.0f32, 2.0, 3.0], vec![0.0f32, 0.0, 1.0]);
    assert_eq!(data, vec![1.0f32, 2.0, 3.0, 0.0, 0.0, 1.0]);
}

#[test]
fn vertex_data_without_normals() {
    let data = vertex_data(vec![4.0f32, 5.0, 6.0], Vec::new());
    assert_eq!(data, vec![4.0f32, 5.0, 6.0]);
}
