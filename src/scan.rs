use vstd::prelude::*;
use vstd::arithmetic::div_mod::{
    lemma_div_pos_is_pos, lemma_fundamental_div_mod, lemma_fundamental_div_mod_converse,
    lemma_multiply_divide_lt,
};
use vstd::arithmetic::mul::{lemma_mul_inequality, lemma_mul_is_commutative};

verus! {

/// Column of the pixel written at position `k` of the output, for an image
/// `width` pixels wide: pixels go left to right along each row.
pub open spec fn column_at(k: int, width: int) -> int {
    k % width
}

/// Row of the pixel written at position `k`: rows go from the top of the
/// image (row `height - 1`) down to row 0.
pub open spec fn row_at(k: int, width: int, height: int) -> int {
    height - 1 - k / width
}

/// Position in the output of the pixel at `(column, row)`.
pub open spec fn position_of(column: int, row: int, width: int, height: int) -> int {
    (height - 1 - row) * width + column
}

/// The pixel `(column, row)` written at position `index` of an image of
/// `width` by `height` pixels, in scanline order (top row first, left to right).
pub fn pixel_at(index: usize, width: usize, height: usize) -> (r: (usize, usize))
    requires
        0 < width,
        index < width * height,
    ensures
        r.0 == column_at(index as int, width as int),
        r.1 == row_at(index as int, width as int, height as int),
        r.0 < width,
        r.1 < height,
{
    proof {
        lemma_div_pos_is_pos(index as int, width as int);
        lemma_multiply_divide_lt(index as int, width as int, height as int);
    }
    (index % width, height - 1 - index / width)
}

/// Position in the output of the pixel at `(column, row)` of an image of
/// `width` by `height` pixels.
pub fn pixel_index(column: usize, row: usize, width: usize, height: usize) -> (r: usize)
    requires
        column < width,
        row < height,
        width * height <= usize::MAX,
    ensures
        r == position_of(column as int, row as int, width as int, height as int),
        r < width * height,
{
    let above: usize = height - 1 - row;
    proof {
        lemma_mul_inequality(above as int, (height - 1) as int, width as int);
        lemma_mul_is_commutative(width as int, height as int);
        assert((height - 1) * width + width == height * width) by (nonlinear_arith);
    }
    above * width + column
}

/// Every position of the output is written with one pixel of the image, and
/// `pixel_index` finds that position again.
pub proof fn lemma_position_round_trip(k: int, width: int, height: int)
    requires
        0 < width,
        0 <= k < width * height,
    ensures
        0 <= column_at(k, width) < width,
        0 <= row_at(k, width, height) < height,
        position_of(column_at(k, width), row_at(k, width, height), width, height) == k,
{
    lemma_div_pos_is_pos(k, width);
    lemma_multiply_divide_lt(k, width, height);
    lemma_fundamental_div_mod(k, width);
    lemma_mul_is_commutative(width, k / width);
}

/// Every pixel of the image is written at exactly one position: the pixel
/// found at the position of `(column, row)` is `(column, row)` itself.
pub proof fn lemma_pixel_round_trip(column: int, row: int, width: int, height: int)
    requires
        0 <= column < width,
        0 <= row < height,
    ensures
        0 <= position_of(column, row, width, height) < width * height,
        column_at(position_of(column, row, width, height), width) == column,
        row_at(position_of(column, row, width, height), width, height) == row,
{
    let q = height - 1 - row;
    let k = position_of(column, row, width, height);
    lemma_fundamental_div_mod_converse(k, width, q, column);
    lemma_mul_inequality(q, height - 1, width);
    assert(0 <= q * width) by (nonlinear_arith)
        requires 0 <= q, 0 < width;
    assert((height - 1) * width + width == width * height) by (nonlinear_arith);
}

} // verus!
