use vstd::prelude::*;

verus! {

/// The number of sides of the octagon.
pub const OCTAGON_SIDES: u32 = 8;

/// The octagon mesh has its center, vertex `0`, and one vertex per corner,
/// vertices `1` to `8`.
pub const OCTAGON_VERTEX_COUNT: u32 = 9;

/// The corner that follows corner `v` (in `1..=8`) around the octagon.
pub open spec fn next_corner(v: int) -> int {
    v % 8 + 1
}

/// The index buffer of the octagon: triangle `k` (for `k` in `0..8`) is the
/// center, corner `k + 1` and the corner after it.
pub open spec fn spec_octagon_indices() -> Seq<u32> {
    Seq::new(
        24,
        |i: int|
            if i % 3 == 0 {
                0u32
            } else if i % 3 == 1 {
                (i / 3 + 1) as u32
            } else {
                next_corner(i / 3 + 1) as u32
            },
    )
}

/// Builds the index buffer of the octagon as a fan of triangles around the
/// center, in counter-clockwise order.
pub fn octagon_indices() -> (indices: Vec<u32>)
    ensures
        indices@ == spec_octagon_indices(),
{
    let mut indices: Vec<u32> = Vec::new();
    let mut i: u32 = 1;
    while i < 8
        invariant
            1 <= i <= 8,
            indices@.len() == 3 * (i - 1),
            forall|j: int|
                0 <= j < indices@.len() ==> #[trigger] indices@[j] == spec_octagon_indices()[j],
        decreases 8 - i,
    {
        indices.push(0);
        indices.push(i);
        indices.push(i + 1);
        i = i + 1;
    }
    indices.push(0);
    indices.push(8);
    indices.push(1);
    assert(indices@ =~= spec_octagon_indices());
    indices
}

/// Every index of the octagon refers to one of its nine vertices, and every
/// triangle has the center as its first vertex.
pub proof fn lemma_octagon_indices_in_bounds()
    ensures
        spec_octagon_indices().len() == 3 * OCTAGON_SIDES,
        forall|j: int|
            0 <= j < spec_octagon_indices().len() ==> #[trigger] spec_octagon_indices()[j]
                < OCTAGON_VERTEX_COUNT,
        forall|k: int| 0 <= k < OCTAGON_SIDES ==> #[trigger] spec_octagon_indices()[3 * k] == 0,
{
}

/// The fan is closed: triangle `k` ends at the corner where triangle `k + 1`
/// (taken round, modulo eight) begins, so neighbouring triangles share an
/// edge with the center.
pub proof fn lemma_octagon_fan_closed()
    ensures
        forall|k: int|
            0 <= k < OCTAGON_SIDES ==> #[trigger] spec_octagon_indices()[3 * k + 2]
                == spec_octagon_indices()[3 * ((k + 1) % 8) + 1],
{
}

/// Each corner lies on exactly two triangles: as the second vertex of
/// triangle `v - 1` and as the third vertex of the triangle before it.
pub proof fn lemma_octagon_corner_on_two_triangles(v: int, k: int)
    requires
        1 <= v <= 8,
        0 <= k < 8,
    ensures
        spec_octagon_indices()[3 * k + 1] == v <==> k == v - 1,
        spec_octagon_indices()[3 * k + 2] == v <==> k == (v + 6) % 8,
        spec_octagon_indices()[3 * k] != v,
{
}

} // verus!
