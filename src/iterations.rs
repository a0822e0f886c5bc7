//! Field rendering: the fan-out of a per-pixel color function over the pixel
//! grid, and the point-symmetric shortcut for Julia fields.
use rayon::iter::{IntoParallelIterator, ParallelIterator};
use crate::grid::lemma_reversal_is_half_turn;
use vstd::prelude::*;

verus! {

/// Column of pixel `i` in a row-major grid `width` pixels wide.
pub open spec fn col_of(i: int, width: int) -> int {
    i % width
}

/// Row of pixel `i` in a row-major grid `width` pixels wide.
pub open spec fn row_of(i: int, width: int) -> int {
    i / width
}

/// Every pixel of a `width` x `height` grid is a valid argument of `pixel`.
pub open spec fn accepts_grid<F: Fn(usize, usize) -> u32>(pixel: F, width: usize, height: usize) -> bool {
    forall|col: usize, row: usize| col < width && row < height ==> #[trigger] pixel.requires((col, row))
}

/// Element `i` of `v` is a color that `pixel` gives for the `i`-th pixel of a
/// grid `width` pixels wide.
pub open spec fn colored_by<F: Fn(usize, usize) -> u32>(v: Seq<u32>, i: int, width: usize, pixel: F) -> bool {
    pixel.ensures((col_of(i, width as int) as usize, row_of(i, width as int) as usize), v[i])
}

/// `v` reads the same forwards and backwards.
pub open spec fn is_reversal_symmetric(v: Seq<u32>) -> bool {
    forall|i: int| 0 <= i < v.len() ==> #[trigger] v[i] == v[v.len() - 1 - i]
}

/// Number of pixels that a Julia field computes: half of the grid, the center
/// pixel included when there is one.
pub open spec fn half_count(total: int) -> int {
    (total + 1) / 2
}

/// Relies on rayon's indexed parallel `map` and `collect` into a `Vec`: the
/// result holds, at each index `i` below `n`, what `f` returned for `i`,
/// whatever the order in which the workers finish.
#[verifier::external_body]
fn par_map_indices<F: Fn(usize) -> u32 + Sync + Send>(n: usize, f: F) -> (v: Vec<u32>)
    requires
        forall|i: usize| i < n ==> #[trigger] f.requires((i,)),
    ensures
        v@.len() == n,
        forall|i: int| 0 <= i < n ==> f.ensures((i as usize,), #[trigger] v@[i]),
{
    (0..n).into_par_iter().map(f).collect()
}

/// Colors the first `num_pixels` pixels of a row-major grid `width` pixels
/// wide, in parallel, each by `pixel(col, row)`.
pub fn get_pixels<F: Fn(usize, usize) -> u32 + Sync + Send>(
    num_pixels: usize,
    width: usize,
    height: usize,
    pixel: F,
) -> (v: Vec<u32>)
    requires
        num_pixels <= width * height,
        accepts_grid(pixel, width, height),
    ensures
        v@.len() == num_pixels,
        forall|i: int| 0 <= i < num_pixels ==> #[trigger] colored_by(v@, i, width, pixel),
{
    if num_pixels == 0 {
        return Vec::new();
    }
    assert(width > 0) by (nonlinear_arith)
        requires
            0 < num_pixels <= width * height,
    ;
    let ghost h = height;
    let pixel_ref = &pixel;
    let per_index = move |i: usize| -> (c: u32)
        requires
            width > 0,
            i < width * h,
            forall|col: usize, row: usize|
                col < width && row < h ==> #[trigger] pixel_ref.requires((col, row)),
        ensures
            pixel_ref.ensures((i % width, i / width), c),
    {
        assert(i / width < h) by (nonlinear_arith)
            requires
                width > 0,
                i < width * h,
        ;
        pixel_ref(i % width, i / width)
    };
    let v = par_map_indices(num_pixels, per_index);
    assert forall|i: int| 0 <= i < num_pixels implies #[trigger] colored_by(v@, i, width, pixel) by {
        assert(per_index.ensures((i as usize,), v@[i]));
    }
    v
}

/// Appends to `a` its own reversal so that the result has `total` elements:
/// when `total` is odd the last element of `a` (the center) is not repeated.
pub fn rev_appended(a: Vec<u32>, total: usize) -> (v: Vec<u32>)
    requires
        a@.len() == half_count(total as int),
    ensures
        v@.len() == total,
        v@.subrange(0, a@.len() as int) == a@,
        is_reversal_symmetric(v@),
{
    let ghost a0 = a@;
    let n = a.len();
    let tail = total - n;
    let mut v = a;
    let mut k = tail;
    while k > 0
        invariant
            k <= tail <= n <= total,
            n == a0.len(),
            n == half_count(total as int),
            tail == total - n,
            v@.len() == n + (tail - k),
            v@.subrange(0, n as int) == a0,
            forall|j: int| n <= j < v@.len() ==> #[trigger] v@[j] == a0[total - 1 - j],
        decreases k,
    {
        k = k - 1;
        let x = v[k];
        v.push(x);
        assert(v@.subrange(0, n as int) =~= a0);
    }
    assert forall|i: int| 0 <= i < v@.len() implies #[trigger] v@[i] == v@[v@.len() - 1 - i] by {
        assert(v@[i] == a0[i] || i >= n);
        assert(v@[v@.len() - 1 - i] == a0[v@.len() - 1 - i] || v@.len() - 1 - i >= n);
    }
    v
}

/// Colors a `width` x `height` Julia field. The recurrence is even in `z`, so
/// the field is point-symmetric about the grid's center: only the first half
/// of the pixels (the center one included) is computed, and the rest is that
/// half reversed.
pub fn julia_pixels<F: Fn(usize, usize) -> u32 + Sync + Send>(
    width: usize,
    height: usize,
    pixel: F,
) -> (v: Vec<u32>)
    requires
        width * height <= usize::MAX,
        accepts_grid(pixel, width, height),
    ensures
        v@.len() == width * height,
        forall|i: int|
            0 <= i < half_count(width * height) ==> #[trigger] colored_by(v@, i, width, pixel),
        is_reversal_symmetric(v@),
        forall|i: int|
            half_count(width * height) <= i < width * height ==> pixel.ensures(
                (
                    (width - 1 - col_of(i, width as int)) as usize,
                    (height - 1 - row_of(i, width as int)) as usize,
                ),
                #[trigger] v@[i],
            ),
{
    let total = width * height;
    let first_half = get_pixels(total / 2 + total % 2, width, height, pixel);
    let ghost first = first_half@;
    let v = rev_appended(first_half, total);
    assert forall|i: int| 0 <= i < half_count(width * height) implies #[trigger] colored_by(
        v@,
        i,
        width,
        pixel,
    ) by {
        assert(colored_by(first, i, width, pixel));
        assert(v@[i] == v@.subrange(0, first.len() as int)[i]);
    }
    assert forall|i: int| half_count(width * height) <= i < width * height implies pixel.ensures(
        (
            (width - 1 - col_of(i, width as int)) as usize,
            (height - 1 - row_of(i, width as int)) as usize,
        ),
        #[trigger] v@[i],
    ) by {
        let m = total - 1 - i;
        assert(width > 0) by (nonlinear_arith)
            requires
                0 <= i < width * height,
        ;
        lemma_reversal_is_half_turn(width as int, height as int, i);
        assert(colored_by(first, m, width, pixel));
        assert(v@[m] == v@.subrange(0, first.len() as int)[m]);
        assert(v@[i] == v@[v@.len() - 1 - i]);
    }
    v
}

/// Colors every pixel of a `width` x `height` Mandelbrot field.
pub fn mandelbrot_pixels<F: Fn(usize, usize) -> u32 + Sync + Send>(
    width: usize,
    height: usize,
    pixel: F,
) -> (v: Vec<u32>)
    requires
        width * height <= usize::MAX,
        accepts_grid(pixel, width, height),
    ensures
        v@.len() == width * height,
        forall|i: int| 0 <= i < width * height ==> #[trigger] colored_by(v@, i, width, pixel),
{
    get_pixels(width * height, width, height, pixel)
}

} // verus!
