use model_viewer::cube::{
    cube_indices, cube_positions, CUBE_COORD_COUNT, CUBE_INDEX_COUNT, CUBE_VERTEX_COUNT,
};

#[test]
fn positions_hold_the_eight_cube_corners() {
    let p = cube_positions();
    assert_eq!(p.len(), CUBE_COORD_COUNT);
    let expected: Vec<i32> = vec![
        -1, -1, -1,
        1, -1, -1,
        -1, -1, 1,
        1, -1, 1,
        -1, 1, -1,
        1, 1, -1,
        -1, 1, 1,
        1, 1, 1,
    ];
    assert_eq!(p, expected);
}

#[test]
fn indices_match_the_twelve_triangles() {
    let idx = cube_indices();
    let expected: Vec<u32> = vec![
        4, 5, 1, 4, 1, 0,
        5, 7, 3, 5, 3, 1,
        7, 6, 2, 7, 2, 3,
        6, 4, 0, 6, 0, 2,
        6, 7, 5, 6, 5, 4,
        0, 1, 3, 0, 3, 4,
    ];
    assert_eq!(idx, expected);
}

#[test]
fn indices_have_36_entries_naming_vertices_0_to_7() {
    let idx = cube_indices();
    assert_eq!(idx.len(), CUBE_INDEX_COUNT);
    assert_eq!(idx.len(), 36);
    for &i in idx.iter() {
        assert!(i < 8);
    }
}

#[test]
fn every_vertex_appears_in_some_triangle() {
    let idx = cube_indices();
    let mut seen: [bool; CUBE_VERTEX_COUNT] = [false; CUBE_VERTEX_COUNT];
    for &i in idx.iter() {
        seen[i as usize] = true;
    }
    for v in 0..CUBE_VERTEX_COUNT {
        assert!(seen[v], "vertex {} never referenced", v);
    }
}
