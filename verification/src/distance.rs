use vstd::prelude::*;

verus! {

/// Perceptual distance between two sRGB triples, as an order-preserving key.
/// Names the result of the oklab crate's `srgb_to_oklab` transform composed
/// with the squared Euclidean norm of the component-wise differences: a pure
/// function of the two triples alone.
pub uninterp spec fn oklab_dist_key(a: (u8, u8, u8), b: (u8, u8, u8)) -> u32;

/// Relies on oklab::srgb_to_oklab: converts each triple to the OKLab space,
/// squares and sums the component-wise differences in single precision, and
/// returns the IEEE 754 bit pattern of the sum. The sum is non-negative, and
/// on non-negative floats the bit-pattern order coincides with the numeric
/// order, so comparing two keys with `<` compares the perceptual distances.
#[verifier::external_body]
pub(crate) fn oklab_dist_key_exec(a: (u8, u8, u8), b: (u8, u8, u8)) -> (d: u32)
    ensures
        d == oklab_dist_key(a, b),
{
    let pa = oklab::srgb_to_oklab(oklab::Rgb::new(a.0, a.1, a.2));
    let pb = oklab::srgb_to_oklab(oklab::Rgb::new(b.0, b.1, b.2));
    let dl = pa.l - pb.l;
    let da = pa.a - pb.a;
    let db = pa.b - pb.b;
    (dl * dl + da * da + db * db).to_bits()
}

/// The entry of `pal`, among the first `n`, perceptually nearest to `pixel`;
/// on an exact tie the entry with the smaller identifier wins.
pub open spec fn nearest_prefix(pixel: (u8, u8, u8), pal: Seq<(u8, u8, u8)>, n: int) -> int
    decreases n,
{
    if n <= 1 {
        0
    } else {
        let prev = nearest_prefix(pixel, pal, n - 1);
        if oklab_dist_key(pixel, pal[n - 1]) < oklab_dist_key(pixel, pal[prev]) {
            n - 1
        } else {
            prev
        }
    }
}

/// The identifier of the palette entry nearest to `pixel`.
pub open spec fn nearest_colour_spec(pixel: (u8, u8, u8), pal: Seq<(u8, u8, u8)>) -> int {
    nearest_prefix(pixel, pal, pal.len() as int)
}

pub proof fn lemma_nearest_prefix_range(pixel: (u8, u8, u8), pal: Seq<(u8, u8, u8)>, n: int)
    requires
        n >= 1,
    ensures
        0 <= nearest_prefix(pixel, pal, n) < n,
    decreases n,
{
    if n > 1 {
        lemma_nearest_prefix_range(pixel, pal, n - 1);
    }
}

/// The nearest entry really is a minimum: no entry is strictly closer, and
/// every entry with a smaller identifier is strictly farther.
pub proof fn lemma_nearest_prefix_is_min(pixel: (u8, u8, u8), pal: Seq<(u8, u8, u8)>, n: int)
    requires
        n >= 1,
    ensures
        forall|j: int|
            0 <= j < n ==> oklab_dist_key(pixel, pal[nearest_prefix(pixel, pal, n)])
                <= #[trigger] oklab_dist_key(pixel, pal[j]),
        forall|j: int|
            0 <= j < nearest_prefix(pixel, pal, n) ==> oklab_dist_key(
                pixel,
                pal[nearest_prefix(pixel, pal, n)],
            ) < #[trigger] oklab_dist_key(pixel, pal[j]),
    decreases n,
{
    if n > 1 {
        lemma_nearest_prefix_is_min(pixel, pal, n - 1);
        lemma_nearest_prefix_range(pixel, pal, n - 1);
    }
}

/// The resolver is deterministic: equal triples resolve to the same entry.
pub proof fn lemma_nearest_deterministic(
    a: (u8, u8, u8),
    b: (u8, u8, u8),
    pal: Seq<(u8, u8, u8)>,
)
    requires
        a == b,
    ensures
        nearest_colour_spec(a, pal) == nearest_colour_spec(b, pal),
{
}

} // verus!
