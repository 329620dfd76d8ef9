use vstd::prelude::*;
use vstd::arithmetic::div_mod::{
    lemma_div_multiples_vanish, lemma_div_pos_is_pos, lemma_fundamental_div_mod,
    lemma_fundamental_div_mod_converse, lemma_mod_bound,
};
use vstd::arithmetic::mul::{
    lemma_mul_by_zero_is_zero, lemma_mul_inequality, lemma_mul_is_distributive_add_other_way,
    lemma_mul_is_distributive_sub_other_way, lemma_mul_upper_bound,
};

verus! {

/// The sum of the luminance samples of a grid.
pub open spec fn spec_sum(pixels: Seq<u8>) -> int
    decreases pixels.len(),
{
    if pixels.len() == 0 {
        0
    } else {
        spec_sum(pixels.drop_last()) + pixels.last()
    }
}

/// The mean luminance of a non-empty grid, rounded down.
pub open spec fn spec_mean(pixels: Seq<u8>) -> int {
    spec_sum(pixels) / pixels.len() as int
}

/// The average-hash bits of a grid: one bit per sample, true exactly when
/// the sample is strictly brighter than the mean.
pub open spec fn spec_average_bits(pixels: Seq<u8>) -> Seq<bool> {
    Seq::new(pixels.len(), |i: int| pixels[i] > spec_mean(pixels))
}

/// The number of difference-hash bits of a `width x height` grid: one
/// comparison per pair of horizontal neighbours.
pub open spec fn spec_diff_len(width: int, height: int) -> nat {
    if width >= 1 && height >= 0 {
        ((width - 1) * height) as nat
    } else {
        0
    }
}

/// The difference-hash bits of a row-major `width x height` grid: the bit
/// at row-major index `y * (width - 1) + x` is true exactly when the sample
/// at `(x + 1, y)` is strictly brighter than the sample at `(x, y)`.
pub open spec fn spec_difference_bits(pixels: Seq<u8>, width: int, height: int) -> Seq<bool> {
    Seq::new(
        spec_diff_len(width, height),
        |k: int|
            {
                let y = k / (width - 1);
                let x = k % (width - 1);
                pixels[y * width + x + 1] > pixels[y * width + x]
            },
    )
}

/// The sample of a row-major `width`-column grid at column `x` of row `y`.
pub open spec fn grid_at(pixels: Seq<u8>, width: int, y: int, x: int) -> u8 {
    pixels[y * width + x]
}

/// Extending a prefix of a grid by one sample adds that sample to the sum.
proof fn lemma_sum_take_step(pixels: Seq<u8>, i: int)
    requires
        0 <= i < pixels.len(),
    ensures
        spec_sum(pixels.take(i + 1)) == spec_sum(pixels.take(i)) + pixels[i],
{
    assert(pixels.take(i + 1).drop_last() =~= pixels.take(i));
    assert(pixels.take(i + 1).last() == pixels[i]);
}

/// The sum of a grid lies between 0 and 255 per sample.
proof fn lemma_sum_bounds(pixels: Seq<u8>)
    ensures
        0 <= spec_sum(pixels) <= 255 * pixels.len(),
    decreases pixels.len(),
{
    if pixels.len() > 0 {
        lemma_sum_bounds(pixels.drop_last());
    }
}

/// The sum of a uniform grid is the common sample value times the length.
proof fn lemma_sum_constant(pixels: Seq<u8>, v: u8)
    requires
        forall|i: int| 0 <= i < pixels.len() ==> pixels[i] == v,
    ensures
        spec_sum(pixels) == pixels.len() * v,
    decreases pixels.len(),
{
    if pixels.len() > 0 {
        lemma_sum_constant(pixels.drop_last(), v);
        lemma_mul_is_distributive_sub_other_way(v as int, pixels.len() as int, 1);
    }
}

/// Positions of the difference-hash bit at row-major index `k`: the row,
/// the column, and the two compared samples all lie inside the grid.
proof fn lemma_diff_index_bounds(width: int, height: int, k: int)
    requires
        width >= 2,
        height >= 1,
        0 <= k < (width - 1) * height,
    ensures
        0 <= k / (width - 1) < height,
        0 <= k % (width - 1) < width - 1,
        0 <= (k / (width - 1)) * width + (k % (width - 1)),
        (k / (width - 1)) * width + (k % (width - 1)) + 1 < width * height,
{
    let y = k / (width - 1);
    let x = k % (width - 1);
    lemma_fundamental_div_mod(k, width - 1);
    lemma_mod_bound(k, width - 1);
    lemma_div_pos_is_pos(k, width - 1);
    if y >= height {
        lemma_mul_inequality(height, y, width - 1);
        assert(height * (width - 1) <= y * (width - 1));
        assert(false);
    }
    lemma_mul_inequality(y, height - 1, width);
    lemma_mul_is_distributive_sub_other_way(width, height, 1);
    assert(y * width + x + 1 <= (height - 1) * width + (width - 1));
}

/// Derives one average-hash bit per grid sample: true exactly when the
/// sample is strictly brighter than the mean luminance of the whole grid.
pub fn average_bits(pixels: &Vec<u8>) -> (r: Vec<bool>)
    requires
        1 <= pixels@.len() <= 65025,
    ensures
        r@ == spec_average_bits(pixels@),
        r@.len() == pixels@.len(),
{
    let n = pixels.len();
    let mut sum: u32 = 0;
    let mut i: usize = 0;
    while i < n
        invariant
            i <= n,
            n == pixels@.len() <= 65025,
            sum == spec_sum(pixels@.take(i as int)),
        decreases n - i,
    {
        proof {
            lemma_sum_take_step(pixels@, i as int);
            lemma_sum_bounds(pixels@.take(i as int));
        }
        sum = sum + pixels[i] as u32;
        i = i + 1;
    }
    proof {
        assert(pixels@.take(n as int) =~= pixels@);
    }
    let mean = sum / (n as u32);
    let mut r: Vec<bool> = Vec::new();
    let mut i: usize = 0;
    while i < n
        invariant
            i <= n,
            n == pixels@.len(),
            mean == spec_mean(pixels@),
            r@ =~= spec_average_bits(pixels@).take(i as int),
        decreases n - i,
    {
        r.push(pixels[i] as u32 > mean);
        i = i + 1;
    }
    proof {
        assert(spec_average_bits(pixels@).take(n as int) =~= spec_average_bits(pixels@));
    }
    r
}

/// Derives one difference-hash bit per pair of horizontal neighbours of a
/// row-major `width x height` grid: true exactly when the right neighbour
/// is strictly brighter. A width of 1 gives an empty bit vector.
pub fn difference_bits(pixels: &Vec<u8>, width: u8, height: u8) -> (r: Vec<bool>)
    requires
        width >= 1,
        pixels@.len() == width as int * height as int,
    ensures
        r@ == spec_difference_bits(pixels@, width as int, height as int),
        r@.len() == (width as int - 1) * height as int,
{
    let w = width as usize;
    let h = height as usize;
    let mut r: Vec<bool> = Vec::new();
    if w == 1 || h == 0 {
        proof {
            lemma_mul_by_zero_is_zero(height as int);
            lemma_mul_by_zero_is_zero(width as int - 1);
            assert(r@ =~= spec_difference_bits(pixels@, width as int, height as int));
        }
        return r;
    }
    proof {
        lemma_mul_by_zero_is_zero(w as int - 1);
    }
    let mut y: usize = 0;
    while y < h
        invariant
            y <= h,
            w == width as int,
            h == height as int,
            2 <= w <= 255,
            1 <= h <= 255,
            pixels@.len() == w * h,
            r@.len() == y * (w - 1),
            r@ =~= spec_difference_bits(pixels@, width as int, height as int).take(
                (y * (w - 1)) as int,
            ),
        decreases h - y,
    {
        let mut x: usize = 0;
        while x < w - 1
            invariant
                y < h,
                x <= w - 1,
                w == width as int,
                h == height as int,
                2 <= w <= 255,
                1 <= h <= 255,
                pixels@.len() == w * h,
                r@.len() == y * (w - 1) + x,
                r@ =~= spec_difference_bits(pixels@, width as int, height as int).take(
                    (y * (w - 1) + x) as int,
                ),
            decreases w - 1 - x,
        {
            let ghost k = (y * (w - 1) + x) as int;
            proof {
                lemma_mul_inequality(y as int, h as int - 1, w as int - 1);
                lemma_mul_is_distributive_sub_other_way(w as int - 1, h as int, 1);
                assert(k < (w as int - 1) * h as int);
                lemma_diff_index_bounds(w as int, h as int, k);
                lemma_fundamental_div_mod_converse(k, w as int - 1, y as int, x as int);
                lemma_mul_inequality(y as int, h as int - 1, w as int);
                lemma_mul_is_distributive_sub_other_way(w as int, h as int, 1);
                lemma_mul_upper_bound(w as int, 255, h as int, 255);
            }
            let offset = y * w + x;
            r.push(pixels[offset + 1] > pixels[offset]);
            proof {
                assert(r@ =~= spec_difference_bits(pixels@, width as int, height as int).take(
                    k + 1,
                ));
            }
            x = x + 1;
        }
        proof {
            lemma_mul_is_distributive_add_other_way(w as int - 1, y as int, 1);
            assert((y + 1) * (w - 1) == y * (w - 1) + (w - 1));
        }
        y = y + 1;
    }
    proof {
        lemma_mul_is_distributive_sub_other_way(h as int, w as int, 1);
        assert((h * (w - 1)) as int == spec_diff_len(width as int, height as int));
        assert(spec_difference_bits(pixels@, width as int, height as int).take(
            (h * (w - 1)) as int,
        ) =~= spec_difference_bits(pixels@, width as int, height as int));
    }
    r
}

/// A perfectly uniform grid yields an all-false average hash: no sample is
/// strictly brighter than the mean.
pub proof fn lemma_uniform_average_bits(pixels: Seq<u8>, v: u8)
    requires
        pixels.len() >= 1,
        forall|i: int| 0 <= i < pixels.len() ==> pixels[i] == v,
    ensures
        spec_average_bits(pixels) == Seq::new(pixels.len(), |i: int| false),
{
    lemma_sum_constant(pixels, v);
    lemma_div_multiples_vanish(v as int, pixels.len() as int);
    assert(spec_mean(pixels) == v);
    assert(spec_average_bits(pixels) =~= Seq::new(pixels.len(), |i: int| false));
}

/// A perfectly uniform grid yields an all-false difference hash: no sample
/// is strictly brighter than its left neighbour.
pub proof fn lemma_uniform_difference_bits(pixels: Seq<u8>, v: u8, width: int, height: int)
    requires
        width >= 1,
        height >= 1,
        pixels.len() == width * height,
        forall|i: int| 0 <= i < pixels.len() ==> pixels[i] == v,
    ensures
        spec_difference_bits(pixels, width, height) == Seq::new(
            spec_diff_len(width, height),
            |k: int| false,
        ),
{
    assert forall|k: int| 0 <= k < spec_diff_len(width, height) implies spec_difference_bits(
        pixels,
        width,
        height,
    )[k] == false by {
        if width >= 2 {
            lemma_diff_index_bounds(width, height, k);
        } else {
            lemma_mul_by_zero_is_zero(height);
            assert(false);
        }
    }
    assert(spec_difference_bits(pixels, width, height) =~= Seq::new(
        spec_diff_len(width, height),
        |k: int| false,
    ));
}

/// A horizontal brightness ramp, each column strictly brighter than the one
/// to its left, yields an all-true difference hash.
pub proof fn lemma_ramp_difference_bits(pixels: Seq<u8>, width: int, height: int)
    requires
        width >= 1,
        height >= 1,
        pixels.len() == width * height,
        forall|y: int, x: int|
            0 <= y < height && 0 <= x < width - 1 ==> grid_at(pixels, width, y, x + 1)
                > #[trigger] grid_at(pixels, width, y, x),
    ensures
        spec_difference_bits(pixels, width, height) == Seq::new(
            spec_diff_len(width, height),
            |k: int| true,
        ),
{
    assert forall|k: int| 0 <= k < spec_diff_len(width, height) implies spec_difference_bits(
        pixels,
        width,
        height,
    )[k] == true by {
        if width < 2 {
            lemma_mul_by_zero_is_zero(height);
            assert(false);
        }
        lemma_diff_index_bounds(width, height, k);
        let y = k / (width - 1);
        let x = k % (width - 1);
        assert(grid_at(pixels, width, y, x + 1) > grid_at(pixels, width, y, x));
        assert(pixels[y * width + x + 1] > pixels[y * width + x]);
    }
    assert(spec_difference_bits(pixels, width, height) =~= Seq::new(
        spec_diff_len(width, height),
        |k: int| true,
    ));
}

} // verus!
