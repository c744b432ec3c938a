//! Static mesh tables.
use vstd::arithmetic::div_mod::lemma_fundamental_div_mod_converse;
use vstd::prelude::*;

verus! {

/// Number of faces of a cube.
pub const CUBE_FACES: u32 = 6;

/// Each face is a quad of four vertices, drawn as two triangles (six indices).
pub const VERTICES_PER_FACE: u32 = 4;

pub const INDICES_PER_FACE: u32 = 6;

/// Holder of the static mesh tables.
pub struct ShapeData {}

/// Which corner of its quad the `k`-th index of a face refers to: the two
/// triangles are (0, 1, 2) and (2, 3, 0).
pub open spec fn quad_corner(k: int) -> int {
    if k == 0 || k == 5 {
        0
    } else if k == 1 {
        1
    } else if k == 2 || k == 3 {
        2
    } else {
        3
    }
}

/// The `i`-th entry of the cube's index list: face `i / 6`, whose four
/// vertices start at `4 * (i / 6)`.
pub open spec fn cube_index(i: int) -> int {
    VERTICES_PER_FACE * (i / INDICES_PER_FACE as int) + quad_corner(i % INDICES_PER_FACE as int)
}

/// The whole index list: six faces of six indices each.
pub open spec fn cube_indices() -> Seq<int> {
    Seq::new((CUBE_FACES * INDICES_PER_FACE) as nat, |i: int| cube_index(i))
}

impl ShapeData {
    /// Triangle indices into the cube's vertex table (24 vertices, four per
    /// face): for face `f`, `4f, 4f+1, 4f+2, 4f+2, 4f+3, 4f`.
    pub fn get_cube_indices() -> (indices: Vec<u32>)
        ensures
            indices@.map_values(|v: u32| v as int) == cube_indices(),
    {
        let mut indices: Vec<u32> = Vec::new();
        let mut face: u32 = 0;
        while face < CUBE_FACES
            invariant
                face <= CUBE_FACES,
                indices@.len() == INDICES_PER_FACE * face,
                forall|i: int| 0 <= i < indices@.len() ==> indices@[i] as int == cube_index(i),
            decreases CUBE_FACES - face,
        {
            let base: u32 = VERTICES_PER_FACE * face;
            indices.push(base);
            indices.push(base + 1);
            indices.push(base + 2);
            indices.push(base + 2);
            indices.push(base + 3);
            indices.push(base);
            proof {
                assert forall|i: int| 6 * face <= i < 6 * face + 6 implies #[trigger] indices@[i] as int
                    == cube_index(i) by {
                    lemma_fundamental_div_mod_converse(i, 6, face as int, i - 6 * face);
                }
            }
            face = face + 1;
        }
        assert(indices@.map_values(|v: u32| v as int) =~= cube_indices());
        indices
    }
}

} // verus!
