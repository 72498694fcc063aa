use vstd::prelude::*;

verus! {

/// The five alpha thresholds, in ascending order.
pub open spec fn tile_thresholds() -> Seq<u8> {
    seq![0u8, 63u8, 127u8, 191u8, 255u8]
}

/// The block-element glyph at each threshold; the entry at threshold 255
/// (index 4) is the unique solid glyph.
pub open spec fn tile_glyph(i: int) -> Seq<char> {
    if i == 0 {
        "\u{20}\u{20}"@
    } else if i == 1 {
        "\u{2591}\u{2591}"@
    } else if i == 2 {
        "\u{2592}\u{2592}"@
    } else if i == 3 {
        "\u{2593}\u{2593}"@
    } else {
        "\u{2588}\u{2588}"@
    }
}

pub open spec fn abs_diff_spec(a: u8, b: u8) -> int {
    if a >= b {
        a - b
    } else {
        b - a
    }
}

/// Among the first `n` thresholds, the index of the one nearest to `alpha`;
/// on an exact tie the earlier (lower) threshold wins.
pub open spec fn nearest_tile_prefix(alpha: u8, n: int) -> int
    decreases n,
{
    if n <= 1 {
        0
    } else {
        let prev = nearest_tile_prefix(alpha, n - 1);
        if abs_diff_spec(tile_thresholds()[n - 1], alpha) < abs_diff_spec(
            tile_thresholds()[prev],
            alpha,
        ) {
            n - 1
        } else {
            prev
        }
    }
}

/// The tile chosen for an alpha level: forcing solidity picks the solid
/// glyph outright, otherwise the nearest threshold decides.
pub open spec fn tile_index_spec(alpha: u8, solid: bool) -> int {
    if solid {
        4
    } else {
        nearest_tile_prefix(alpha, 5)
    }
}

/// The threshold and glyph of the tile-table entry at `i`.
pub fn tile_at(i: usize) -> (t: (u8, &'static str))
    requires
        i < 5,
    ensures
        t.0 == tile_thresholds()[i as int],
        t.1@ == tile_glyph(i as int),
{
    match i {
        0 => (0, "\u{20}\u{20}"),
        1 => (63, "\u{2591}\u{2591}"),
        2 => (127, "\u{2592}\u{2592}"),
        3 => (191, "\u{2593}\u{2593}"),
        _ => (255, "\u{2588}\u{2588}"),
    }
}

/// Finds the most appropriate tile character for an alpha level, together
/// with whether that tile is the solid one.
pub fn find_nearest_tile(alpha: u8, solid: bool) -> (r: (&'static str, bool))
    ensures
        r.0@ == tile_glyph(tile_index_spec(alpha, solid)),
        r.1 == (tile_index_spec(alpha, solid) == 4),
{
    if solid {
        return ("\u{2588}\u{2588}", true);
    }
    let first = tile_at(0);
    let mut best: usize = 0;
    let mut best_diff: u8 = if first.0 >= alpha {
        first.0 - alpha
    } else {
        alpha - first.0
    };
    for i in 1..5usize
        invariant
            best < i,
            best as int == nearest_tile_prefix(alpha, i as int),
            best_diff as int == abs_diff_spec(tile_thresholds()[best as int], alpha),
    {
        let entry = tile_at(i);
        let diff: u8 = if entry.0 >= alpha {
            entry.0 - alpha
        } else {
            alpha - entry.0
        };
        if diff < best_diff {
            best = i;
            best_diff = diff;
        }
    }
    let chosen = tile_at(best);
    (chosen.1, best == 4)
}

pub proof fn lemma_nearest_tile_prefix_range(alpha: u8, n: int)
    requires
        n >= 1,
    ensures
        0 <= nearest_tile_prefix(alpha, n) < n,
    decreases n,
{
    if n > 1 {
        lemma_nearest_tile_prefix_range(alpha, n - 1);
    }
}

/// The chosen tile really has the smallest absolute difference from the
/// alpha level, and every earlier threshold is strictly farther.
pub proof fn lemma_nearest_tile_is_min(alpha: u8, n: int)
    requires
        n >= 1,
    ensures
        forall|j: int|
            0 <= j < n ==> abs_diff_spec(tile_thresholds()[nearest_tile_prefix(alpha, n)], alpha)
                <= abs_diff_spec(#[trigger] tile_thresholds()[j], alpha),
        forall|j: int|
            0 <= j < nearest_tile_prefix(alpha, n) ==> abs_diff_spec(
                tile_thresholds()[nearest_tile_prefix(alpha, n)],
                alpha,
            ) < abs_diff_spec(#[trigger] tile_thresholds()[j], alpha),
    decreases n,
{
    if n > 1 {
        lemma_nearest_tile_is_min(alpha, n - 1);
        lemma_nearest_tile_prefix_range(alpha, n - 1);
    }
}

/// With full alpha and no forcing, the resolver always picks the solid glyph.
pub proof fn lemma_opaque_alpha_is_solid()
    ensures
        tile_index_spec(255u8, false) == 4,
{
    assert(nearest_tile_prefix(255u8, 1) == 0);
    assert(nearest_tile_prefix(255u8, 2) == 1);
    assert(nearest_tile_prefix(255u8, 3) == 2);
    assert(nearest_tile_prefix(255u8, 4) == 3);
    assert(nearest_tile_prefix(255u8, 5) == 4);
}

} // verus!
