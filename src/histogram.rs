use vstd::prelude::*;

use crate::config::{BIN_COUNT, BIN_WIDTH, HISTOGRAM_SIZE};

verus! {

/// The histogram bin of one 8-bit channel value.
pub open spec fn channel_bin(c: u8) -> nat {
    c as nat / BIN_WIDTH as nat
}

/// The flat histogram cell of a colour: red bin major, blue bin minor.
pub open spec fn cell_of(r: u8, g: u8, b: u8) -> nat {
    (channel_bin(r) * BIN_COUNT as nat + channel_bin(g)) * BIN_COUNT as nat + channel_bin(b)
}

/// Number of whole RGB pixels in an interleaved buffer.
pub open spec fn pixel_count(px: Seq<u8>) -> nat {
    px.len() / 3
}

/// The histogram cell of pixel `p` of an interleaved RGB buffer.
pub open spec fn pixel_cell(px: Seq<u8>, p: int) -> nat {
    cell_of(px[3 * p], px[3 * p + 1], px[3 * p + 2])
}

/// How many of the first `n` pixels of `px` fall into `cell`.
pub open spec fn count_in(px: Seq<u8>, n: nat, cell: nat) -> nat
    decreases n,
{
    if n == 0 {
        0
    } else {
        count_in(px, (n - 1) as nat, cell) + if pixel_cell(px, n - 1) == cell {
            1nat
        } else {
            0nat
        }
    }
}

/// Sum of a sequence of counts.
pub open spec fn total(s: Seq<usize>) -> int
    decreases s.len(),
{
    if s.len() == 0 {
        0
    } else {
        total(s.drop_last()) + s.last()
    }
}

proof fn lemma_count_in_bounded(px: Seq<u8>, n: nat, cell: nat)
    ensures
        count_in(px, n, cell) <= n,
    decreases n,
{
    if n > 0 {
        lemma_count_in_bounded(px, (n - 1) as nat, cell);
    }
}

proof fn lemma_total_increment(s: Seq<usize>, k: int, v: usize)
    requires
        0 <= k < s.len(),
        v == s[k] + 1,
    ensures
        total(s.update(k, v)) == total(s) + 1,
    decreases s.len(),
{
    let t = s.update(k, v);
    if k == s.len() - 1 {
        assert(t.drop_last() =~= s.drop_last());
    } else {
        assert(t.drop_last() =~= s.drop_last().update(k, v));
        lemma_total_increment(s.drop_last(), k, v);
    }
}

proof fn lemma_total_zeros(s: Seq<usize>)
    requires
        forall|i: int| 0 <= i < s.len() ==> s[i] == 0,
    ensures
        total(s) == 0,
    decreases s.len(),
{
    if s.len() > 0 {
        lemma_total_zeros(s.drop_last());
    }
}

/// The histogram cell of the colour `(r, g, b)`.
pub fn cell_index(r: u8, g: u8, b: u8) -> (idx: usize)
    ensures
        idx == cell_of(r, g, b),
        idx < HISTOGRAM_SIZE,
{
    let rb = r as usize / BIN_WIDTH;
    let gb = g as usize / BIN_WIDTH;
    let bb = b as usize / BIN_WIDTH;
    (rb * BIN_COUNT + gb) * BIN_COUNT + bb
}

/// Counts the pixels of an interleaved RGB buffer that fall into each cell
/// of the spatial colour histogram.
pub fn bin_counts(pixels: &Vec<u8>) -> (counts: Vec<usize>)
    requires
        pixels.len() % 3 == 0,
    ensures
        counts.len() == HISTOGRAM_SIZE,
        forall|c: int|
            0 <= c < HISTOGRAM_SIZE ==> counts[c] == count_in(
                pixels@,
                pixel_count(pixels@),
                c as nat,
            ),
        total(counts@) == pixel_count(pixels@),
{
    let mut counts: Vec<usize> = Vec::new();
    let mut c: usize = 0;
    while c < HISTOGRAM_SIZE
        invariant
            c <= HISTOGRAM_SIZE,
            counts.len() == c,
            forall|i: int| 0 <= i < c ==> counts[i] == 0,
        decreases HISTOGRAM_SIZE - c,
    {
        counts.push(0);
        c = c + 1;
    }
    proof {
        lemma_total_zeros(counts@);
    }
    let n: usize = pixels.len() / 3;
    let mut p: usize = 0;
    while p < n
        invariant
            n == pixel_count(pixels@),
            pixels.len() == 3 * n,
            p <= n,
            counts.len() == HISTOGRAM_SIZE,
            forall|c: int|
                0 <= c < HISTOGRAM_SIZE ==> counts[c] == count_in(pixels@, p as nat, c as nat),
            total(counts@) == p,
        decreases n - p,
    {
        let k = cell_index(pixels[3 * p], pixels[3 * p + 1], pixels[3 * p + 2]);
        proof {
            lemma_count_in_bounded(pixels@, p as nat, k as nat);
        }
        let v = counts[k] + 1;
        proof {
            lemma_total_increment(counts@, k as int, v);
        }
        counts.set(k, v);
        p = p + 1;
        assert forall|c: int| 0 <= c < HISTOGRAM_SIZE implies counts[c] == count_in(
            pixels@,
            p as nat,
            c as nat,
        ) by {
            assert(pixel_cell(pixels@, p - 1) == k);
        }
    }
    counts
}

/// The non-empty cells of a histogram, in increasing cell order.
pub fn nonempty_cells(counts: &Vec<usize>) -> (cells: Vec<usize>)
    ensures
        forall|i: int, j: int| 0 <= i < j < cells.len() ==> cells[i] < cells[j],
        forall|i: int| 0 <= i < cells.len() ==> cells[i] < counts.len() && counts[cells[i] as int] > 0,
        forall|c: int| 0 <= c < counts.len() && counts[c] > 0 ==> cells@.contains(c as usize),
{
    let mut cells: Vec<usize> = Vec::new();
    let mut c: usize = 0;
    while c < counts.len()
        invariant
            c <= counts.len(),
            forall|i: int, j: int| 0 <= i < j < cells.len() ==> cells[i] < cells[j],
            forall|i: int| 0 <= i < cells.len() ==> cells[i] < c && counts[cells[i] as int] > 0,
            forall|d: int| 0 <= d < c && counts[d] > 0 ==> cells@.contains(d as usize),
        decreases counts.len() - c,
    {
        let ghost prev = cells@;
        if counts[c] > 0 {
            cells.push(c);
            assert(cells[cells.len() - 1] == c);
        }
        assert forall|d: int| 0 <= d < c + 1 && counts[d] > 0 implies cells@.contains(
            d as usize,
        ) by {
            if d == c {
                assert(cells[cells.len() - 1] == c);
            } else {
                let i = choose|i: int| 0 <= i < prev.len() && prev[i] == d as usize;
                assert(cells@[i] == d as usize);
            }
        }
        c = c + 1;
    }
    cells
}

} // verus!
