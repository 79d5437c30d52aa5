//! Binning of pixels by colour, the first step of clustering the colours of
//! album art.

use vstd::prelude::*;

verus! {

/// The number of bits kept of each channel.
pub const QUANTIZATION_LEVEL: usize = 5;

/// The number of colour bins: one for each value of the kept bits.
pub const BIN_COUNT: usize = 32768;

/// The bin of a colour: the top five bits of red, green and blue, in that
/// order, read as one fifteen-bit number.
pub open spec fn spec_quantize(r: u8, g: u8, b: u8) -> int {
    (r / 8) as int * 1024 + (g / 8) as int * 32 + (b / 8) as int
}

/// The bin of a colour.
pub fn quantize_pixel(r: u8, g: u8, b: u8) -> (idx: usize)
    ensures
        idx == spec_quantize(r, g, b),
        idx < BIN_COUNT,
{
    let red = r >> 3u8;
    let green = g >> 3u8;
    let blue = b >> 3u8;
    assert(red == r / 8 && green == g / 8 && blue == b / 8) by (bit_vector)
        requires
            red == r >> 3u8,
            green == g >> 3u8,
            blue == b >> 3u8,
    ;
    let (x, y, z) = (red as usize, green as usize, blue as usize);
    assert((x << 10usize) | (y << 5usize) | z == x * 1024 + y * 32 + z) by (bit_vector)
        requires
            x < 32,
            y < 32,
            z < 32,
    ;
    (x << 10usize) | (y << 5usize) | z
}

/// Two colours share a bin exactly when the top five bits of each channel
/// agree.
pub proof fn law_quantize_same_bin(r1: u8, g1: u8, b1: u8, r2: u8, g2: u8, b2: u8)
    ensures
        spec_quantize(r1, g1, b1) == spec_quantize(r2, g2, b2) <==> (r1 / 8 == r2 / 8 && g1 / 8
            == g2 / 8 && b1 / 8 == b2 / 8),
{
    let (a1, c1, d1) = ((r1 / 8) as int, (g1 / 8) as int, (b1 / 8) as int);
    let (a2, c2, d2) = ((r2 / 8) as int, (g2 / 8) as int, (b2 / 8) as int);
    assert(a1 * 1024 + c1 * 32 + d1 == a2 * 1024 + c2 * 32 + d2 ==> a1 == a2 && c1 == c2 && d1
        == d2) by (nonlinear_arith)
        requires
            0 <= a1 < 32,
            0 <= c1 < 32,
            0 <= d1 < 32,
            0 <= a2 < 32,
            0 <= c2 < 32,
            0 <= d2 < 32,
    ;
}

/// The pixels that fell into one bin: the sums of their channels and their
/// number.
#[derive(Debug, Clone, Copy)]
pub struct ColorBin {
    pub r_sum: u64,
    pub g_sum: u64,
    pub b_sum: u64,
    pub count: usize,
}

impl View for ColorBin {
    type V = (nat, nat, nat, nat);

    open spec fn view(&self) -> (nat, nat, nat, nat) {
        (self.r_sum as nat, self.g_sum as nat, self.b_sum as nat, self.count as nat)
    }
}

/// The sums of the channels of the pixels of `px` that fall into bin `i`,
/// and their number.
pub open spec fn bin_of(px: Seq<[u8; 3]>, i: int) -> (nat, nat, nat, nat)
    decreases px.len(),
{
    if px.len() == 0 {
        (0, 0, 0, 0)
    } else {
        let prev = bin_of(px.drop_last(), i);
        let p = px.last();
        if spec_quantize(p[0], p[1], p[2]) == i {
            (prev.0 + p[0] as nat, prev.1 + p[1] as nat, prev.2 + p[2] as nat, prev.3 + 1)
        } else {
            prev
        }
    }
}

/// The number of pixels of `px` over all bins.
pub open spec fn bins_total(bins: Seq<ColorBin>) -> nat
    decreases bins.len(),
{
    if bins.len() == 0 {
        0
    } else {
        bins_total(bins.drop_last()) + bins.last().count as nat
    }
}

proof fn lemma_bin_bounds(px: Seq<[u8; 3]>, i: int)
    ensures
        bin_of(px, i).0 <= 255 * px.len(),
        bin_of(px, i).1 <= 255 * px.len(),
        bin_of(px, i).2 <= 255 * px.len(),
        bin_of(px, i).3 <= px.len(),
    decreases px.len(),
{
    if px.len() > 0 {
        lemma_bin_bounds(px.drop_last(), i);
    }
}

/// Sorts every pixel into its bin, summing channels and counting pixels.
pub fn accumulate_bins(pixels: &Vec<[u8; 3]>) -> (bins: Vec<ColorBin>)
    requires
        pixels.len() * 255 <= u64::MAX,
    ensures
        bins.len() == BIN_COUNT,
        forall|i: int| 0 <= i < BIN_COUNT ==> #[trigger] bins@[i]@ == bin_of(pixels@, i),
{
    let mut bins: Vec<ColorBin> = Vec::new();
    let mut i: usize = 0;
    while i < BIN_COUNT
        invariant
            i <= BIN_COUNT,
            bins.len() == i,
            forall|j: int| 0 <= j < i ==> #[trigger] bins@[j]@ == (0nat, 0nat, 0nat, 0nat),
        decreases BIN_COUNT - i,
    {
        bins.push(ColorBin { r_sum: 0, g_sum: 0, b_sum: 0, count: 0 });
        i += 1;
    }
    let mut k: usize = 0;
    assert(pixels@.take(0) == Seq::<[u8; 3]>::empty());
    while k < pixels.len()
        invariant
            k <= pixels.len(),
            pixels.len() * 255 <= u64::MAX,
            bins.len() == BIN_COUNT,
            forall|j: int| 0 <= j < BIN_COUNT ==> #[trigger] bins@[j]@ == bin_of(
                pixels@.take(k as int),
                j,
            ),
        decreases pixels.len() - k,
    {
        let p = pixels[k];
        let idx = quantize_pixel(p[0], p[1], p[2]);
        let ghost before = pixels@.take(k as int);
        let ghost after = pixels@.take(k + 1);
        proof {
            assert(after.drop_last() == before);
            assert(after.last() == p);
            lemma_bin_bounds(before, idx as int);
        }
        let old = bins[idx];
        assert(bins@[idx as int]@ == bin_of(before, idx as int));
        assert(255 * k + 255 <= 255 * pixels.len());
        let updated = ColorBin {
            r_sum: old.r_sum + p[0] as u64,
            g_sum: old.g_sum + p[1] as u64,
            b_sum: old.b_sum + p[2] as u64,
            count: old.count + 1,
        };
        bins.set(idx, updated);
        k += 1;
    }
    assert(pixels@.take(k as int) == pixels@);
    bins
}

} // verus!

verus! {

/// The number of pixels of `px` in the bins below `n`.
pub open spec fn count_below(px: Seq<[u8; 3]>, n: int) -> nat
    decreases n,
{
    if n <= 0 {
        0
    } else {
        count_below(px, n - 1) + bin_of(px, n - 1).3
    }
}

proof fn lemma_count_below_step(px: Seq<[u8; 3]>, n: int)
    requires
        px.len() > 0,
        n >= 0,
    ensures
        count_below(px, n) == count_below(px.drop_last(), n) + if spec_quantize(
            px.last()[0],
            px.last()[1],
            px.last()[2],
        ) < n {
            1nat
        } else {
            0nat
        },
    decreases n,
{
    if n > 0 {
        lemma_count_below_step(px, n - 1);
    }
}

proof fn lemma_count_all(px: Seq<[u8; 3]>)
    ensures
        count_below(px, BIN_COUNT as int) == px.len(),
    decreases px.len(),
{
    if px.len() == 0 {
        lemma_count_zero(px, BIN_COUNT as int);
    } else {
        lemma_count_all(px.drop_last());
        lemma_count_below_step(px, BIN_COUNT as int);
        let p = px.last();
        assert(spec_quantize(p[0], p[1], p[2]) < BIN_COUNT);
    }
}

proof fn lemma_count_zero(px: Seq<[u8; 3]>, n: int)
    requires
        px.len() == 0,
    ensures
        count_below(px, n) == 0,
    decreases n,
{
    if n > 0 {
        lemma_count_zero(px, n - 1);
    }
}

proof fn lemma_bins_total_prefix(px: Seq<[u8; 3]>, bins: Seq<ColorBin>, n: int)
    requires
        0 <= n <= bins.len(),
        forall|i: int| 0 <= i < bins.len() ==> #[trigger] bins[i]@ == bin_of(px, i),
    ensures
        bins_total(bins.take(n)) == count_below(px, n),
    decreases n,
{
    if n > 0 {
        lemma_bins_total_prefix(px, bins, n - 1);
        assert(bins.take(n).drop_last() == bins.take(n - 1));
        assert(bins.take(n).last() == bins[n - 1]);
        assert(bins[n - 1]@ == bin_of(px, n - 1));
        assert(bins[n - 1].count as nat == bin_of(px, n - 1).3);
        assert(bins_total(bins.take(n)) == bins_total(bins.take(n - 1)) + bins[n - 1].count as nat);
    } else {
        assert(bins.take(0).len() == 0);
    }
}

/// Binning loses and invents no pixel: the counts of all bins add up to the
/// number of pixels.
pub proof fn law_bins_count_every_pixel(pixels: Seq<[u8; 3]>, bins: Seq<ColorBin>)
    requires
        bins.len() == BIN_COUNT,
        forall|i: int| 0 <= i < BIN_COUNT ==> #[trigger] bins[i]@ == bin_of(pixels, i),
    ensures
        bins_total(bins) == pixels.len(),
{
    lemma_bins_total_prefix(pixels, bins, BIN_COUNT as int);
    assert(bins.take(BIN_COUNT as int) == bins);
    lemma_count_all(pixels);
}

/// The bins of `bins` that hold at least one pixel, in order.
pub open spec fn occupied(bins: Seq<ColorBin>) -> Seq<ColorBin>
    decreases bins.len(),
{
    if bins.len() == 0 {
        seq![]
    } else if bins.last().count > 0 {
        occupied(bins.drop_last()).push(bins.last())
    } else {
        occupied(bins.drop_last())
    }
}

/// Keeps the bins that hold at least one pixel, in order.
pub fn occupied_bins(bins: &Vec<ColorBin>) -> (r: Vec<ColorBin>)
    ensures
        r@ == occupied(bins@),
{
    let mut r: Vec<ColorBin> = Vec::new();
    let mut i: usize = 0;
    assert(bins@.take(0) == Seq::<ColorBin>::empty());
    while i < bins.len()
        invariant
            i <= bins.len(),
            r@ == occupied(bins@.take(i as int)),
        decreases bins.len() - i,
    {
        assert(bins@.take(i + 1).drop_last() == bins@.take(i as int));
        assert(bins@.take(i + 1).last() == bins@[i as int]);
        if bins[i].count > 0 {
            r.push(bins[i]);
        }
        i += 1;
    }
    assert(bins@.take(i as int) == bins@);
    r
}

} // verus!
