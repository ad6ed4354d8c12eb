//! Triangle-list index buffers for hexagonal tile meshes.

use vstd::prelude::*;

verus! {

/// The six indices that draw one quad from its four corners as two
/// triangles, `(top_left, bottom_left, bottom_right)` then
/// `(top_left, bottom_right, top_right)`. This fixed winding keeps every
/// face normal pointing consistently outward.
pub open spec fn quad_index_seq(
    top_left: u32,
    top_right: u32,
    bottom_left: u32,
    bottom_right: u32,
) -> Seq<u32> {
    seq![top_left, bottom_left, bottom_right, top_left, bottom_right, top_right]
}

/// Fill `idx` with indices to draw a quad using the 4 provided corners.
pub fn quad_indices(
    idx: &mut Vec<u32>,
    top_left: u32,
    top_right: u32,
    bottom_left: u32,
    bottom_right: u32,
)
    ensures
        final(idx)@ == old(idx)@ + quad_index_seq(top_left, top_right, bottom_left, bottom_right),
{
    // First triangle
    idx.push(top_left);
    idx.push(bottom_left);
    idx.push(bottom_right);
    // Second triangle
    idx.push(top_left);
    idx.push(bottom_right);
    idx.push(top_right);
    proof {
        assert(idx@ =~= old(idx)@ + quad_index_seq(top_left, top_right, bottom_left, bottom_right));
    }
}

/// The indices of the first `n` triangles of a fan around the hexagon
/// center: triangle `i` is `(0, i + 1, i + 2)`.
pub open spec fn fan_index_seq(n: nat) -> Seq<u32>
    decreases n,
{
    if n == 0 {
        Seq::empty()
    } else {
        fan_index_seq((n - 1) as nat) + seq![0u32, n as u32, (n + 1) as u32]
    }
}

/// The fan emits 3 indices per triangle.
pub proof fn lemma_fan_index_seq_len(n: nat)
    ensures
        fan_index_seq(n).len() == 3 * n,
    decreases n,
{
    if n > 0 {
        lemma_fan_index_seq_len((n - 1) as nat);
    }
}

/// Fill `idx` with the indices to create a hexagon when interpreted as a
/// triangle list: 7 triangles fanning out from the center point at index 0
/// across consecutive ring points.
///
/// The emitted indices reach up to point index 8, so they assume a backing
/// point buffer of at least 9 entries: one more than the 8 points of a
/// standalone flat hexagon (center plus 7-point ring). That is true whenever
/// this fan forms the top of the beveled mesh, whose point buffer continues
/// with the bevel ring, but it would read out of range against a standalone
/// 8-point buffer. Callers must honor this buffer-size contract.
pub fn flat_hexagon_indices(idx: &mut Vec<u32>)
    ensures
        final(idx)@ == old(idx)@ + fan_index_seq(7),
        final(idx)@.len() == old(idx)@.len() + 21,
{
    // Each of the six faces
    let mut i: u32 = 0;
    while i < 7
        invariant
            i <= 7,
            idx@ == old(idx)@ + fan_index_seq(i as nat),
        decreases 7 - i,
    {
        //           first-time     second-time
        idx.push(0);  // Center
        idx.push(i + 1);  // Point       East           North-east
        idx.push(i + 2);  // Next point  North-east     North-west
        proof {
            assert(idx@ =~= old(idx)@ + fan_index_seq((i + 1) as nat));
        }
        i = i + 1;
    }
    proof {
        lemma_fan_index_seq_len(7);
    }
}

/// The fan never references a point index above `n + 1`. For the full
/// 7-triangle fan that bound is 8, which is why the fan assumes a backing
/// point buffer of at least 9 entries.
pub proof fn lemma_fan_index_seq_bound(n: nat)
    requires
        n + 1 <= u32::MAX,
    ensures
        forall|k: int|
            0 <= k < fan_index_seq(n).len() ==> #[trigger] fan_index_seq(n)[k] <= n + 1,
    decreases n,
{
    if n > 0 {
        lemma_fan_index_seq_bound((n - 1) as nat);
        lemma_fan_index_seq_len((n - 1) as nat);
    }
}

/// The indices of a band of `n` quads joining two rings of consecutive
/// point indices: quad `i` spans upper-ring indices `top + i`, `top + i + 1`
/// and lower-ring indices `bottom + i`, `bottom + i + 1`.
pub open spec fn quad_band_seq(top: u32, bottom: u32, n: nat) -> Seq<u32>
    decreases n,
{
    if n == 0 {
        Seq::empty()
    } else {
        quad_band_seq(top, bottom, (n - 1) as nat) + quad_index_seq(
            (top + n - 1) as u32,
            (top + n) as u32,
            (bottom + n - 1) as u32,
            (bottom + n) as u32,
        )
    }
}

/// A band emits 6 indices per quad.
pub proof fn lemma_quad_band_seq_len(top: u32, bottom: u32, n: nat)
    ensures
        quad_band_seq(top, bottom, n).len() == 6 * n,
    decreases n,
{
    if n > 0 {
        lemma_quad_band_seq_len(top, bottom, (n - 1) as nat);
    }
}

/// A band of `n` quads references ring positions `top..=top + n` and
/// `bottom..=bottom + n` only, so it never names an index above
/// `bottom + n`.
pub proof fn lemma_quad_band_seq_bound(top: u32, bottom: u32, n: nat)
    requires
        top <= bottom,
        bottom + n <= u32::MAX,
    ensures
        forall|k: int|
            0 <= k < quad_band_seq(top, bottom, n).len() ==> #[trigger] quad_band_seq(
                top,
                bottom,
                n,
            )[k] <= bottom + n,
    decreases n,
{
    if n > 0 {
        lemma_quad_band_seq_bound(top, bottom, (n - 1) as nat);
        lemma_quad_band_seq_len(top, bottom, (n - 1) as nat);
    }
}

/// The full index buffer of the beveled hexagonal prism: the top-face fan,
/// then a band of quads joining the top ring (indices 1..=8) to the bevel
/// ring (indices 8..=15), then a band joining the bevel ring to the skirt
/// ring (indices 15..=22). 35 triangles, 105 indices.
pub open spec fn bevel_index_seq() -> Seq<u32> {
    fan_index_seq(7) + quad_band_seq(1, 8, 7) + quad_band_seq(8, 15, 7)
}

/// The beveled-prism indices reference point indices 0 through 22 and no
/// more. The top-face fan stays at or below 8, the slope band at or below
/// 15, and the skirt band at or below 22; the skirt band's final quad thus
/// names one entry past the 22 points of the prism's rings, just as the
/// standalone fan names one entry past a standalone 8-point hexagon, so a
/// consumer must size the backing point buffer accordingly.
pub proof fn lemma_bevel_index_seq_bound()
    ensures
        forall|k: int|
            0 <= k < bevel_index_seq().len() ==> #[trigger] bevel_index_seq()[k] <= 22,
{
    lemma_fan_index_seq_bound(7);
    lemma_fan_index_seq_len(7);
    lemma_quad_band_seq_bound(1, 8, 7);
    lemma_quad_band_seq_len(1, 8, 7);
    lemma_quad_band_seq_bound(8, 15, 7);
    lemma_quad_band_seq_len(8, 15, 7);
}

/// Fill `idx` with indices to construct a beveled hexagon.
pub fn bevel_hexagon_indices(idx: &mut Vec<u32>)
    ensures
        final(idx)@ == old(idx)@ + bevel_index_seq(),
        final(idx)@.len() == old(idx)@.len() + 105,
{
    // First, fill indices with the flat top hexagon
    flat_hexagon_indices(idx);

    // Add slopes
    let mut i: u32 = 0;
    while i < 7
        invariant
            i <= 7,
            idx@ == old(idx)@ + fan_index_seq(7) + quad_band_seq(1, 8, i as nat),
        decreases 7 - i,
    {
        // Insert a quad, using the inner beveled hex, and the outer sloped hex
        quad_indices(idx, i + 1, i + 2, i + 8, i + 9);
        proof {
            assert(idx@ =~= old(idx)@ + fan_index_seq(7) + quad_band_seq(1, 8, (i + 1) as nat));
        }
        i = i + 1;
    }

    // Add a skirt
    let mut i: u32 = 0;
    while i < 7
        invariant
            i <= 7,
            idx@ == old(idx)@ + fan_index_seq(7) + quad_band_seq(1, 8, 7) + quad_band_seq(
                8,
                15,
                i as nat,
            ),
        decreases 7 - i,
    {
        // Insert a quad using the outer sloped hex and the bottom base hex
        quad_indices(idx, i + 8, i + 9, i + 15, i + 16);
        proof {
            assert(idx@ =~= old(idx)@ + fan_index_seq(7) + quad_band_seq(1, 8, 7) + quad_band_seq(
                8,
                15,
                (i + 1) as nat,
            ));
        }
        i = i + 1;
    }
    proof {
        lemma_fan_index_seq_len(7);
        lemma_quad_band_seq_len(1, 8, 7);
        lemma_quad_band_seq_len(8, 15, 7);
        assert(idx@ =~= old(idx)@ + bevel_index_seq());
    }
}

} // verus!
