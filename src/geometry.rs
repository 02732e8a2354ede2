use vstd::prelude::*;

verus! {

/// The number of corners of the unit cube's vertex list: four per face.
pub const CUBE_VERTEX_COUNT: u32 = 24;

/// The number of indices of the unit cube: two triangles per face, six faces.
pub const CUBE_INDEX_COUNT: u32 = 36;

/// The corner, within its face, of the `k`-th index of a face: triangles (0, 1, 2) and (0, 2, 3).
pub open spec fn face_corner(k: int) -> int {
    if k == 0 || k == 3 {
        0
    } else if k == 1 {
        1
    } else if k == 2 || k == 4 {
        2
    } else {
        3
    }
}

/// The `i`-th index of the cube: face `i / 6`, whose corners are vertices `4 * face` to `4 * face + 3`.
pub open spec fn cube_index(i: int) -> int {
    4 * (i / 6) + face_corner(i % 6)
}

/// The index list of the unit cube, as a 16-bit index buffer holds it.
pub fn cube_indices() -> (r: Vec<u16>)
    ensures
        r@.len() == CUBE_INDEX_COUNT,
        forall|i: int| 0 <= i < CUBE_INDEX_COUNT ==> r@[i] as int == #[trigger] cube_index(i),
        forall|i: int| 0 <= i < CUBE_INDEX_COUNT ==> r@[i] < CUBE_VERTEX_COUNT,
{
    let mut r: Vec<u16> = Vec::new();
    let mut face: u16 = 0;
    while face < 6
        invariant
            face <= 6,
            r@.len() == 6 * face,
            forall|i: int| 0 <= i < 6 * face ==> r@[i] as int == #[trigger] cube_index(i),
        decreases 6 - face,
    {
        let base: u16 = 4 * face;
        let corners: [u16; 6] = [0, 1, 2, 0, 2, 3];
        let mut k: usize = 0;
        while k < 6
            invariant
                face < 6,
                base == 4 * face,
                k <= 6,
                corners@ == seq![0u16, 1, 2, 0, 2, 3],
                r@.len() == 6 * face + k,
                forall|i: int| 0 <= i < 6 * face + k ==> r@[i] as int == #[trigger] cube_index(i),
            decreases 6 - k,
        {
            let i: Ghost<int> = Ghost(6 * face + k);
            assert(i@ / 6 == face as int && i@ % 6 == k as int) by (nonlinear_arith)
                requires i@ == 6 * face + k, 0 <= k < 6;
            r.push(base + corners[k]);
            k += 1;
        }
        face += 1;
    }
    assert forall|i: int| 0 <= i < CUBE_INDEX_COUNT implies r@[i] < CUBE_VERTEX_COUNT by {
        assert(0 <= i / 6 < 6 && 0 <= i % 6 < 6) by (nonlinear_arith)
            requires 0 <= i < 36;
        assert(r@[i] as int == cube_index(i));
    }
    r
}

} // verus!
