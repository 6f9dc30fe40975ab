use vstd::prelude::*;

verus! {

/// Number of entries in the cube's index list: 12 triangles, 3 indices each,
/// covering all 6 faces.
pub const CUBE_INDEX_COUNT: usize = 36;

/// Number of vertices of the cube mesh.
pub const CUBE_VERTEX_COUNT: usize = 8;

/// Number of coordinates in the vertex list: 8 vertices, 3 coordinates each.
pub const CUBE_COORD_COUNT: usize = 24;

/// The cube's vertex positions, flattened to 24 coordinates (x, y, z per
/// vertex), in half-units: every coordinate is half an edge length from the
/// origin, so each entry is -1 or 1 and the rendered coordinate is the entry
/// divided by 2.
///
/// Vertex layout: the bottom face holds vertices 0..4 (y = -1), the top face
/// vertices 4..8 (y = 1); within each face x alternates -1, 1 and z goes
/// -1, -1, 1, 1.
pub open spec fn cube_position_spec() -> Seq<i32> {
    seq![
        -1i32, -1i32, -1i32,
        1i32, -1i32, -1i32,
        -1i32, -1i32, 1i32,
        1i32, -1i32, 1i32,
        -1i32, 1i32, -1i32,
        1i32, 1i32, -1i32,
        -1i32, 1i32, 1i32,
        1i32, 1i32, 1i32,
    ]
}

/// The cube's index list: 36 entries forming 12 triangles, two per face,
/// each entry naming one of the 8 vertices.
pub open spec fn cube_index_spec() -> Seq<u32> {
    seq![
        4u32, 5u32, 1u32, 4u32, 1u32, 0u32,
        5u32, 7u32, 3u32, 5u32, 3u32, 1u32,
        7u32, 6u32, 2u32, 7u32, 2u32, 3u32,
        6u32, 4u32, 0u32, 6u32, 0u32, 2u32,
        6u32, 7u32, 5u32, 6u32, 5u32, 4u32,
        0u32, 1u32, 3u32, 0u32, 3u32, 4u32,
    ]
}

/// Builds the vertex coordinate list uploaded to the vertex buffer.
pub fn cube_positions() -> (r: Vec<i32>)
    ensures
        r@ == cube_position_spec(),
        r@.len() == 24,
{
    let v: Vec<i32> = vec![
        -1, -1, -1,
        1, -1, -1,
        -1, -1, 1,
        1, -1, 1,
        -1, 1, -1,
        1, 1, -1,
        -1, 1, 1,
        1, 1, 1,
    ];
    proof {
        assert(v@ =~= cube_position_spec());
    }
    v
}

/// Builds the index list uploaded to the index buffer.
pub fn cube_indices() -> (r: Vec<u32>)
    ensures
        r@ == cube_index_spec(),
        r@.len() == 36,
        forall|i: int| 0 <= i < r@.len() ==> r@[i] < 8,
{
    let v: Vec<u32> = vec![
        4, 5, 1, 4, 1, 0,
        5, 7, 3, 5, 3, 1,
        7, 6, 2, 7, 2, 3,
        6, 4, 0, 6, 0, 2,
        6, 7, 5, 6, 5, 4,
        0, 1, 3, 0, 3, 4,
    ];
    proof {
        assert(v@ =~= cube_index_spec());
        lemma_cube_indices_cover_all_vertices();
    }
    v
}

/// Whether vertex `v` appears somewhere in the cube's index list.
pub open spec fn vertex_appears(v: u32) -> bool {
    exists|i: int| 0 <= i < cube_index_spec().len() && cube_index_spec()[i] == v
}

/// The index list is a full cube: it holds exactly 36 entries, every entry
/// names one of the 8 vertices, and every one of the 8 vertices appears in
/// at least one triangle.
pub proof fn lemma_cube_indices_cover_all_vertices()
    ensures
        cube_index_spec().len() == 36,
        forall|i: int| 0 <= i < cube_index_spec().len() ==> #[trigger] cube_index_spec()[i] < 8,
        forall|v: u32| v < 8 ==> #[trigger] vertex_appears(v),
{
    let s = cube_index_spec();
    assert forall|i: int| 0 <= i < s.len() implies #[trigger] s[i] < 8 by {
        assert(s[i] < 8);
    }
    assert forall|v: u32| v < 8 implies #[trigger] vertex_appears(v) by {
        assert(s[5] == 0);
        assert(s[2] == 1);
        assert(s[14] == 2);
        assert(s[8] == 3);
        assert(s[0] == 4);
        assert(s[1] == 5);
        assert(s[13] == 6);
        assert(s[7] == 7);
    }
}

} // verus!
