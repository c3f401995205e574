use turbine::scene::{triangle_arrays, ColorBuffer, SceneSettings, VertexBuffer2, VertexBuffer3};

#[test]
fn it_works() {
    assert_eq!(2 + 2, 4);
}

#[test]
fn scene_settings_builders() {
    let s = SceneSettings::new();
    assert!(s.clear_depth_buffer);
    assert!(s.clear_enable_depth_test);
    let s = s.clear_depth_buffer(false);
    assert!(!s.clear_depth_buffer);
    assert!(s.clear_enable_depth_test);
    let s = s.clear_enable_depth_test(false);
    assert!(!s.clear_depth_buffer);
    assert!(!s.clear_enable_depth_test);
    let d = SceneSettings::default();
    assert!(d.clear_depth_buffer && d.clear_enable_depth_test);
}

#[test]
fn buffer_lengths() {
    assert_eq!(ColorBuffer(3, 12).len(), 12);
    assert_eq!(VertexBuffer3(0, 9).len(), 9);
    assert_eq!(VertexBuffer2(1, 4).len(), 4);
}

#[test]
fn obj_triangles_pick_corner_items() {
    let vertices: Vec<u32> = (0..9).collect();
    let uvs: Vec<u32> = (100..106).collect();
    let normals: Vec<u32> = (200..209).collect();
    let complete = [(0, Some(1), Some(2)), (1, Some(0), Some(0)), (2, Some(2), Some(1))];
    let missing_uv = [(0, None, Some(0)), (1, Some(0), Some(0)), (2, Some(0), Some(0))];
    let (v, t, n) = triangle_arrays(&vertices, &uvs, &normals, &vec![missing_uv, complete]);
    assert_eq!(v, vec![0, 1, 2, 3, 4, 5, 6, 7, 8]);
    assert_eq!(t, vec![102, 103, 100, 101, 104, 105]);
    assert_eq!(n, vec![206, 207, 208, 200, 201, 202, 203, 204, 205]);
}
