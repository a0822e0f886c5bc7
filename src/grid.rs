//! Facts about row-major pixel grids: word `k` of a grid `w` pixels wide is the
//! pixel in column `k % w` and row `k / w`.
use vstd::arithmetic::div_mod::lemma_fundamental_div_mod_converse;
use vstd::prelude::*;

verus! {

/// Pixel `(col, row)` of a `w` x `h` grid is word `row * w + col`, which lies
/// in the grid and gives back its column and row.
pub proof fn lemma_grid_index(w: int, h: int, col: int, row: int)
    requires
        0 <= col < w,
        0 <= row < h,
    ensures
        0 <= row * w + col < w * h,
        (row * w + col) % w == col,
        (row * w + col) / w == row,
{
    lemma_fundamental_div_mod_converse(row * w + col, w, row, col);
    assert(0 <= row * w + col < w * h) by (nonlinear_arith)
        requires
            0 <= col < w,
            0 <= row < h,
    ;
}

/// Word `k` is the pixel `(k % w, k / w)`.
pub proof fn lemma_grid_split(w: int, k: int)
    requires
        w > 0,
        k >= 0,
    ensures
        k == (k / w) * w + k % w,
        0 <= k % w < w,
{
    vstd::arithmetic::div_mod::lemma_fundamental_div_mod(k, w);
    vstd::arithmetic::mul::lemma_mul_is_commutative(w, k / w);
}

/// Every word of a `w` x `h` grid is a pixel inside it.
pub proof fn lemma_grid_bounds(w: int, h: int, k: int)
    requires
        w > 0,
        0 <= k < w * h,
    ensures
        0 <= k % w < w,
        0 <= k / w < h,
{
    lemma_grid_split(w, k);
    vstd::arithmetic::div_mod::lemma_div_pos_is_pos(k, w);
    vstd::arithmetic::mul::lemma_mul_is_commutative(w, h);
    vstd::arithmetic::div_mod::lemma_div_by_multiple_is_strongly_ordered(k, w * h, h, w);
    vstd::arithmetic::div_mod::lemma_div_multiples_vanish(h, w);
}

/// Reversing the words of a `w` x `h` grid turns it half way round its center:
/// word `w * h - 1 - k` is the pixel `(w - 1 - col, h - 1 - row)` when word `k`
/// is the pixel `(col, row)`.
pub proof fn lemma_reversal_is_half_turn(w: int, h: int, k: int)
    requires
        w > 0,
        0 <= k < w * h,
    ensures
        (w * h - 1 - k) % w == w - 1 - k % w,
        (w * h - 1 - k) / w == h - 1 - k / w,
{
    lemma_grid_bounds(w, h, k);
    lemma_grid_split(w, k);
    let col = k % w;
    let row = k / w;
    assert(w * h - 1 - k == (h - 1 - row) * w + (w - 1 - col)) by (nonlinear_arith)
        requires
            k == row * w + col,
    ;
    lemma_fundamental_div_mod_converse(w * h - 1 - k, w, h - 1 - row, w - 1 - col);
}

} // verus!
