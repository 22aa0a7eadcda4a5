//! The two stock cubes, as tables of vertex words and one-byte indices.
//!
//! Both span the box from (-1, -1, -1) to (1, 1, 1) in object space. A
//! vertex word is the bit pattern of a single-precision number.

use crate::data::{ONE, ZERO};
use vstd::prelude::*;

verus! {

/// Bit pattern of the real number minus one.
pub const NEG_ONE: u32 = 0xBF80_0000;

/// Words per vertex of the flat cube: a position.
pub const FLAT_VERTEX_WORDS: usize = 3;

/// Words per vertex of the shaded cube: a position, then a normal.
pub const SHADED_VERTEX_WORDS: usize = 6;

/// The flat cube's vertices, three words each: the eight corners, the four
/// upper ones first.
pub open spec fn flat_cube_vertices() -> Seq<u32> {
    seq![
        ONE, ONE, NEG_ONE,
        NEG_ONE, ONE, NEG_ONE,
        ONE, ONE, ONE,
        NEG_ONE, ONE, ONE,
        ONE, NEG_ONE, NEG_ONE,
        NEG_ONE, NEG_ONE, NEG_ONE,
        NEG_ONE, NEG_ONE, ONE,
        ONE, NEG_ONE, ONE,
    ]
}

/// The flat cube's indices: one triangle strip that covers all six faces.
pub open spec fn flat_cube_indices() -> Seq<u8> {
    seq![0u8, 1, 4, 5, 6, 1, 3, 0, 2, 4, 7, 6, 2, 3]
}

/// The shaded cube's vertices, six words each: four per face, each with the
/// face's outward normal. The faces come in the order back, front, left,
/// right, top, bottom.
pub open spec fn cube_vertices() -> Seq<u32> {
    seq![
        NEG_ONE, NEG_ONE, NEG_ONE, ZERO, ZERO, NEG_ONE,
        NEG_ONE, ONE, NEG_ONE, ZERO, ZERO, NEG_ONE,
        ONE, NEG_ONE, NEG_ONE, ZERO, ZERO, NEG_ONE,
        ONE, ONE, NEG_ONE, ZERO, ZERO, NEG_ONE,
        NEG_ONE, NEG_ONE, ONE, ZERO, ZERO, ONE,
        NEG_ONE, ONE, ONE, ZERO, ZERO, ONE,
        ONE, NEG_ONE, ONE, ZERO, ZERO, ONE,
        ONE, ONE, ONE, ZERO, ZERO, ONE,
        NEG_ONE, NEG_ONE, ONE, NEG_ONE, ZERO, ZERO,
        NEG_ONE, ONE, ONE, NEG_ONE, ZERO, ZERO,
        NEG_ONE, NEG_ONE, NEG_ONE, NEG_ONE, ZERO, ZERO,
        NEG_ONE, ONE, NEG_ONE, NEG_ONE, ZERO, ZERO,
        ONE, NEG_ONE, ONE, ONE, ZERO, ZERO,
        ONE, ONE, ONE, ONE, ZERO, ZERO,
        ONE, NEG_ONE, NEG_ONE, ONE, ZERO, ZERO,
        ONE, ONE, NEG_ONE, ONE, ZERO, ZERO,
        NEG_ONE, ONE, NEG_ONE, ZERO, ONE, ZERO,
        NEG_ONE, ONE, ONE, ZERO, ONE, ZERO,
        ONE, ONE, NEG_ONE, ZERO, ONE, ZERO,
        ONE, ONE, ONE, ZERO, ONE, ZERO,
        NEG_ONE, NEG_ONE, NEG_ONE, ZERO, NEG_ONE, ZERO,
        NEG_ONE, NEG_ONE, ONE, ZERO, NEG_ONE, ZERO,
        ONE, NEG_ONE, NEG_ONE, ZERO, NEG_ONE, ZERO,
        ONE, NEG_ONE, ONE, ZERO, NEG_ONE, ZERO,
    ]
}

/// The shaded cube's indices: two triangles per face, over the face's own
/// four vertices.
pub open spec fn cube_indices() -> Seq<u8> {
    seq![
        0u8, 3, 2, 1, 3, 0,
        6, 7, 4, 4, 7, 5,
        8, 11, 10, 9, 11, 8,
        14, 15, 12, 12, 15, 13,
        16, 19, 18, 17, 19, 16,
        22, 23, 20, 20, 23, 21,
    ]
}

/// The table of [`flat_cube_vertices`].
pub fn flat_cube_vertex_table() -> (out: [u32; 24])
    ensures
        out@ == flat_cube_vertices(),
{
    let out: [u32; 24] = [
        ONE, ONE, NEG_ONE,
        NEG_ONE, ONE, NEG_ONE,
        ONE, ONE, ONE,
        NEG_ONE, ONE, ONE,
        ONE, NEG_ONE, NEG_ONE,
        NEG_ONE, NEG_ONE, NEG_ONE,
        NEG_ONE, NEG_ONE, ONE,
        ONE, NEG_ONE, ONE,
    ];
    assert(out@ =~= flat_cube_vertices());
    out
}

/// The table of [`flat_cube_indices`].
pub fn flat_cube_index_table() -> (out: [u8; 14])
    ensures
        out@ == flat_cube_indices(),
{
    let out: [u8; 14] = [0, 1, 4, 5, 6, 1, 3, 0, 2, 4, 7, 6, 2, 3];
    assert(out@ =~= flat_cube_indices());
    out
}

/// The table of [`cube_vertices`].
pub fn cube_vertex_table() -> (out: [u32; 144])
    ensures
        out@ == cube_vertices(),
{
    let out: [u32; 144] = [
        NEG_ONE, NEG_ONE, NEG_ONE, ZERO, ZERO, NEG_ONE,
        NEG_ONE, ONE, NEG_ONE, ZERO, ZERO, NEG_ONE,
        ONE, NEG_ONE, NEG_ONE, ZERO, ZERO, NEG_ONE,
        ONE, ONE, NEG_ONE, ZERO, ZERO, NEG_ONE,
        NEG_ONE, NEG_ONE, ONE, ZERO, ZERO, ONE,
        NEG_ONE, ONE, ONE, ZERO, ZERO, ONE,
        ONE, NEG_ONE, ONE, ZERO, ZERO, ONE,
        ONE, ONE, ONE, ZERO, ZERO, ONE,
        NEG_ONE, NEG_ONE, ONE, NEG_ONE, ZERO, ZERO,
        NEG_ONE, ONE, ONE, NEG_ONE, ZERO, ZERO,
        NEG_ONE, NEG_ONE, NEG_ONE, NEG_ONE, ZERO, ZERO,
        NEG_ONE, ONE, NEG_ONE, NEG_ONE, ZERO, ZERO,
        ONE, NEG_ONE, ONE, ONE, ZERO, ZERO,
        ONE, ONE, ONE, ONE, ZERO, ZERO,
        ONE, NEG_ONE, NEG_ONE, ONE, ZERO, ZERO,
        ONE, ONE, NEG_ONE, ONE, ZERO, ZERO,
        NEG_ONE, ONE, NEG_ONE, ZERO, ONE, ZERO,
        NEG_ONE, ONE, ONE, ZERO, ONE, ZERO,
        ONE, ONE, NEG_ONE, ZERO, ONE, ZERO,
        ONE, ONE, ONE, ZERO, ONE, ZERO,
        NEG_ONE, NEG_ONE, NEG_ONE, ZERO, NEG_ONE, ZERO,
        NEG_ONE, NEG_ONE, ONE, ZERO, NEG_ONE, ZERO,
        ONE, NEG_ONE, NEG_ONE, ZERO, NEG_ONE, ZERO,
        ONE, NEG_ONE, ONE, ZERO, NEG_ONE, ZERO,
    ];
    assert(out@ =~= cube_vertices());
    out
}

/// The table of [`cube_indices`].
pub fn cube_index_table() -> (out: [u8; 36])
    ensures
        out@ == cube_indices(),
{
    let out: [u8; 36] = [
        0, 3, 2, 1, 3, 0,
        6, 7, 4, 4, 7, 5,
        8, 11, 10, 9, 11, 8,
        14, 15, 12, 12, 15, 13,
        16, 19, 18, 17, 19, 16,
        22, 23, 20, 20, 23, 21,
    ];
    assert(out@ =~= cube_indices());
    out
}

/// The flat cube has eight vertices and fourteen indices; the shaded cube
/// has twenty-four vertices and thirty-six indices.
pub proof fn lemma_cube_sizes()
    ensures
        flat_cube_vertices().len() == 8 * FLAT_VERTEX_WORDS,
        flat_cube_indices().len() == 14,
        cube_vertices().len() == 24 * SHADED_VERTEX_WORDS,
        cube_indices().len() == 36,
{
}

/// Word `axis` (0, 1 or 2) of the position of vertex `v` of the shaded cube.
pub open spec fn cube_position(v: int, axis: int) -> u32 {
    cube_vertices()[6 * v + axis]
}

/// Word `axis` (0, 1 or 2) of the normal of vertex `v` of the shaded cube.
pub open spec fn cube_normal(v: int, axis: int) -> u32 {
    cube_vertices()[6 * v + 3 + axis]
}

/// Every index of the flat cube names one of its eight vertices.
pub proof fn lemma_flat_cube_indices_in_range(i: int)
    requires
        0 <= i < 14,
    ensures
        flat_cube_indices()[i] < 8,
{
}

/// Every corner of the flat cube lies at one or minus one along each axis.
pub proof fn lemma_flat_cube_corners(w: int)
    requires
        0 <= w < 24,
    ensures
        flat_cube_vertices()[w] == ONE || flat_cube_vertices()[w] == NEG_ONE,
{
}

/// The six indices of a face of the shaded cube name vertices of that face
/// only, so no normal is shared between faces.
pub proof fn lemma_cube_indices_stay_on_face(i: int)
    requires
        0 <= i < 36,
    ensures
        4 * (i / 6) <= cube_indices()[i] < 4 * (i / 6) + 4,
{
}

/// The four vertices of a face of the shaded cube carry one and the same
/// normal: a unit vector along one axis. Each of them lies on the side of
/// the box to which the normal points.
pub proof fn lemma_cube_normals(v: int)
    requires
        0 <= v < 24,
    ensures
        forall|axis: int|
            0 <= axis < 3 ==> cube_normal(v, axis) == #[trigger] cube_normal(4 * (v / 4), axis),
        forall|axis: int|
            0 <= axis < 3 ==> {
                ||| #[trigger] cube_normal(v, axis) == ZERO
                ||| cube_normal(v, axis) == cube_position(v, axis)
            },
        forall|axis: int|
            0 <= axis < 3 ==> {
                ||| #[trigger] cube_position(v, axis) == ONE
                ||| cube_position(v, axis) == NEG_ONE
            },
        exists|axis: int|
            0 <= axis < 3 && #[trigger] cube_normal(v, axis) != ZERO && forall|other: int|
                0 <= other < 3 && other != axis ==> #[trigger] cube_normal(v, other) == ZERO,
{
    let face = v / 4;
    if face == 0 || face == 1 {
        assert(cube_normal(v, 2) != ZERO);
    } else if face == 2 || face == 3 {
        assert(cube_normal(v, 0) != ZERO);
    } else {
        assert(cube_normal(v, 1) != ZERO);
    }
}

} // verus!
