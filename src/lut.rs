use vstd::prelude::*;

use crate::config::{LUT_SIZE, TRANSFER_BIN_COUNT, TRANSFER_BIN_WIDTH};

verus! {

/// The denominator of every interpolation weight: the volume of one grid cell.
pub const WEIGHT_TOTAL: u32 = 512;

/// One lookup-grid vertex read when transferring a pixel, with its weight out
/// of `WEIGHT_TOTAL`.
#[derive(Debug, Clone, Copy, PartialEq, Eq)]
pub struct LutTap {
    pub vertex: usize,
    pub weight: u32,
}

/// The grid cell of one channel value along its axis.
pub open spec fn grid_bin(c: u8) -> nat {
    c as nat / TRANSFER_BIN_WIDTH as nat
}

/// How far, in channel steps, a channel value lies past its cell's lower vertex.
pub open spec fn grid_offset(c: u8) -> nat {
    c as nat % TRANSFER_BIN_WIDTH as nat
}

/// The flat index of the grid vertex `(ri, gi, bi)`: red major, blue minor.
pub open spec fn vertex_of(ri: nat, gi: nat, bi: nat) -> nat {
    (ri * TRANSFER_BIN_COUNT as nat + gi) * TRANSFER_BIN_COUNT as nat + bi
}

/// The linear weight along one axis of the lower (`upper == 0`) or upper
/// (`upper == 1`) vertex for a value `d` steps into the cell.
pub open spec fn axis_weight(upper: nat, d: nat) -> nat {
    if upper == 0 {
        (TRANSFER_BIN_WIDTH as nat - d) as nat
    } else {
        d
    }
}

/// The grid vertex nearest to one channel value along its axis.
pub open spec fn nearest_bin(c: u8) -> nat {
    let n = (c as nat + TRANSFER_BIN_WIDTH as nat / 2) / TRANSFER_BIN_WIDTH as nat;
    if n < TRANSFER_BIN_COUNT {
        n
    } else {
        (TRANSFER_BIN_COUNT - 1) as nat
    }
}

/// Whether a colour lies in the last cell along some axis, where no upper
/// vertex exists and the nearest vertex is used alone.
pub open spec fn on_upper_face(r: u8, g: u8, b: u8) -> bool {
    grid_bin(r) + 1 >= TRANSFER_BIN_COUNT || grid_bin(g) + 1 >= TRANSFER_BIN_COUNT || grid_bin(b)
        + 1 >= TRANSFER_BIN_COUNT
}

/// Corner `t` (bits: red, green, blue) of the cell of `(r, g, b)` with its
/// trilinear weight.
pub open spec fn corner_tap(r: u8, g: u8, b: u8, t: int) -> LutTap {
    let i = (t / 4) as nat;
    let j = (t / 2 % 2) as nat;
    let k = (t % 2) as nat;
    LutTap {
        vertex: vertex_of(grid_bin(r) + i, grid_bin(g) + j, grid_bin(b) + k) as usize,
        weight: (axis_weight(i, grid_offset(r)) * axis_weight(j, grid_offset(g)) * axis_weight(
            k,
            grid_offset(b),
        )) as u32,
    }
}

/// The vertices, with weights, whose blend gives the transferred colour of
/// `(r, g, b)`.
pub open spec fn sample_taps(r: u8, g: u8, b: u8) -> Seq<LutTap> {
    if on_upper_face(r, g, b) {
        seq![
            LutTap {
                vertex: vertex_of(nearest_bin(r), nearest_bin(g), nearest_bin(b)) as usize,
                weight: WEIGHT_TOTAL,
            },
        ]
    } else {
        Seq::new(8, |t: int| corner_tap(r, g, b, t))
    }
}

/// Channel `axis` (0 red, 1 green, 2 blue) of the colour at grid vertex `v`.
pub open spec fn vertex_channel(v: nat, axis: nat) -> nat {
    let n = TRANSFER_BIN_COUNT as nat;
    let bin = if axis == 0 {
        v / (n * n)
    } else if axis == 1 {
        v / n % n
    } else {
        v % n
    };
    bin * TRANSFER_BIN_WIDTH as nat
}

/// Sum of the weights of a list of taps.
pub open spec fn weight_sum(taps: Seq<LutTap>) -> int
    decreases taps.len(),
{
    if taps.len() == 0 {
        0
    } else {
        weight_sum(taps.drop_last()) + taps.last().weight
    }
}

/// The flat index of the grid vertex `(ri, gi, bi)`.
pub fn vertex_index(ri: usize, gi: usize, bi: usize) -> (v: usize)
    requires
        ri < TRANSFER_BIN_COUNT,
        gi < TRANSFER_BIN_COUNT,
        bi < TRANSFER_BIN_COUNT,
    ensures
        v == vertex_of(ri as nat, gi as nat, bi as nat),
        v < LUT_SIZE,
{
    (ri * TRANSFER_BIN_COUNT + gi) * TRANSFER_BIN_COUNT + bi
}

/// The input colour at which grid vertex `v` is evaluated.
pub fn vertex_color(v: usize) -> (c: (u8, u8, u8))
    requires
        v < LUT_SIZE,
    ensures
        c.0 == vertex_channel(v as nat, 0),
        c.1 == vertex_channel(v as nat, 1),
        c.2 == vertex_channel(v as nat, 2),
{
    let ri = v / (TRANSFER_BIN_COUNT * TRANSFER_BIN_COUNT);
    let gi = v / TRANSFER_BIN_COUNT % TRANSFER_BIN_COUNT;
    let bi = v % TRANSFER_BIN_COUNT;
    ((ri * TRANSFER_BIN_WIDTH) as u8, (gi * TRANSFER_BIN_WIDTH) as u8, (bi * TRANSFER_BIN_WIDTH) as u8)
}

/// The grid vertex nearest to the channel value `c` along its axis.
fn nearest_index(c: u8) -> (i: usize)
    ensures
        i == nearest_bin(c),
        i < TRANSFER_BIN_COUNT,
{
    let n = (c as usize + TRANSFER_BIN_WIDTH / 2) / TRANSFER_BIN_WIDTH;
    if n < TRANSFER_BIN_COUNT {
        n
    } else {
        TRANSFER_BIN_COUNT - 1
    }
}

/// The grid vertices, with weights out of `WEIGHT_TOTAL`, whose blend gives
/// the transferred colour of `(r, g, b)`: the eight corners of its cell with
/// trilinear weights, or the grid vertex nearest to it alone where its cell
/// has no upper neighbour along some axis.
pub fn sample(r: u8, g: u8, b: u8) -> (taps: Vec<LutTap>)
    ensures
        taps@ == sample_taps(r, g, b),
        weight_sum(taps@) == WEIGHT_TOTAL,
        forall|t: int| 0 <= t < taps.len() ==> taps[t].vertex < LUT_SIZE,
{
    let ri = r as usize / TRANSFER_BIN_WIDTH;
    let gi = g as usize / TRANSFER_BIN_WIDTH;
    let bi = b as usize / TRANSFER_BIN_WIDTH;
    let mut taps: Vec<LutTap> = Vec::new();
    if ri + 1 >= TRANSFER_BIN_COUNT || gi + 1 >= TRANSFER_BIN_COUNT || bi + 1 >= TRANSFER_BIN_COUNT {
        let vertex = vertex_index(nearest_index(r), nearest_index(g), nearest_index(b));
        taps.push(LutTap { vertex, weight: WEIGHT_TOTAL });
        proof {
            assert(taps@ =~= sample_taps(r, g, b));
            assert(weight_sum(taps@.drop_last()) == 0);
        }
        return taps;
    }
    let dr = (r as usize % TRANSFER_BIN_WIDTH) as u32;
    let dg = (g as usize % TRANSFER_BIN_WIDTH) as u32;
    let db = (b as usize % TRANSFER_BIN_WIDTH) as u32;
    let width = TRANSFER_BIN_WIDTH as u32;
    let mut t: usize = 0;
    while t < 8
        invariant
            t <= 8,
            ri == grid_bin(r),
            gi == grid_bin(g),
            bi == grid_bin(b),
            ri + 1 < TRANSFER_BIN_COUNT,
            gi + 1 < TRANSFER_BIN_COUNT,
            bi + 1 < TRANSFER_BIN_COUNT,
            dr == grid_offset(r),
            dg == grid_offset(g),
            db == grid_offset(b),
            width == TRANSFER_BIN_WIDTH,
            taps.len() == t,
            forall|s: int| 0 <= s < t ==> taps[s] == corner_tap(r, g, b, s),
        decreases 8 - t,
    {
        let i = t / 4;
        let j = t / 2 % 2;
        let k = t % 2;
        let wr = if i == 0 {
            width - dr
        } else {
            dr
        };
        let wg = if j == 0 {
            width - dg
        } else {
            dg
        };
        let wb = if k == 0 {
            width - db
        } else {
            db
        };
        assert(wr * wg <= 64) by (nonlinear_arith)
            requires
                wr <= 8,
                wg <= 8,
        ;
        assert(wr * wg * wb <= 512) by (nonlinear_arith)
            requires
                wr <= 8,
                wg <= 8,
                wb <= 8,
        ;
        let tap = LutTap { vertex: vertex_index(ri + i, gi + j, bi + k), weight: wr * wg * wb };
        taps.push(tap);
        t = t + 1;
    }
    proof {
        assert(taps@ =~= sample_taps(r, g, b));
        lemma_corner_weights_total(r, g, b);
    }
    taps
}

/// Away from the grid's upper faces, the eight trilinear weights of a colour
/// add up to `WEIGHT_TOTAL`.
pub proof fn lemma_corner_weights_total(r: u8, g: u8, b: u8)
    requires
        !on_upper_face(r, g, b),
    ensures
        weight_sum(sample_taps(r, g, b)) == WEIGHT_TOTAL,
{
    let s = sample_taps(r, g, b);
    let x = grid_offset(r) as int;
    let y = grid_offset(g) as int;
    let z = grid_offset(b) as int;
    assert forall|t: int| 0 <= t < 8 implies s[t].weight == (if t / 4 == 0 {
        8 - x
    } else {
        x
    }) * (if t / 2 % 2 == 0 {
        8 - y
    } else {
        y
    }) * (if t % 2 == 0 {
        8 - z
    } else {
        z
    }) by {
        let i = t / 4;
        let j = t / 2 % 2;
        let k = t % 2;
        let a = axis_weight(i as nat, x as nat) as int;
        let c = axis_weight(j as nat, y as nat) as int;
        let e = axis_weight(k as nat, z as nat) as int;
        assert(0 <= a <= 8 && 0 <= c <= 8 && 0 <= e <= 8);
        assert(a * c * e <= 512) by (nonlinear_arith)
            requires
                0 <= a <= 8,
                0 <= c <= 8,
                0 <= e <= 8,
        ;
        assert(0 <= a * c * e) by (nonlinear_arith)
            requires
                0 <= a,
                0 <= c,
                0 <= e,
        ;
    }
    reveal_with_fuel(weight_sum, 9);
    assert(s.drop_last().drop_last().drop_last().drop_last().drop_last().drop_last().drop_last().drop_last().len() == 0);
    assert((8 - x) * (8 - y) * (8 - z) + (8 - x) * (8 - y) * z + (8 - x) * y * (8 - z) + (8 - x) * y * z
        + x * (8 - y) * (8 - z) + x * (8 - y) * z + x * y * (8 - z) + x * y * z == 512)
        by (nonlinear_arith);
}

/// A colour that sits exactly on an interior grid vertex is read from that
/// vertex alone, with the whole weight.
pub proof fn lemma_vertex_exact(r: u8, g: u8, b: u8)
    requires
        grid_offset(r) == 0,
        grid_offset(g) == 0,
        grid_offset(b) == 0,
    ensures
        sample_taps(r, g, b)[0] == (LutTap {
            vertex: vertex_of(grid_bin(r), grid_bin(g), grid_bin(b)) as usize,
            weight: WEIGHT_TOTAL,
        }),
        forall|t: int| 1 <= t < sample_taps(r, g, b).len() ==> sample_taps(r, g, b)[t].weight == 0,
{
    if on_upper_face(r, g, b) {
        assert(nearest_bin(r) == grid_bin(r));
        assert(nearest_bin(g) == grid_bin(g));
        assert(nearest_bin(b) == grid_bin(b));
        assert(vertex_of(nearest_bin(r), nearest_bin(g), nearest_bin(b)) == vertex_of(
            grid_bin(r),
            grid_bin(g),
            grid_bin(b),
        ));
        assert(sample_taps(r, g, b)[0] == (LutTap {
            vertex: vertex_of(nearest_bin(r), nearest_bin(g), nearest_bin(b)) as usize,
            weight: WEIGHT_TOTAL,
        }));
    } else {
        let s = sample_taps(r, g, b);
        assert(s[0] == corner_tap(r, g, b, 0));
        assert(axis_weight(0, 0) == 8);
        assert(s[0].weight == 512);
        assert forall|t: int| 1 <= t < s.len() implies s[t].weight == 0 by {
            let a = axis_weight((t / 4) as nat, 0) as int;
            let c = axis_weight((t / 2 % 2) as nat, 0) as int;
            let e = axis_weight((t % 2) as nat, 0) as int;
            assert(a == 0 || c == 0 || e == 0);
            assert(a * c * e == 0) by (nonlinear_arith)
                requires
                    a == 0 || c == 0 || e == 0,
            ;
        }
    }
}

/// Evaluating the grid at vertex `v` and locating that colour again leads
/// back to `v`.
pub proof fn lemma_vertex_round_trip(v: usize)
    requires
        v < LUT_SIZE,
    ensures
        ({
            let r = vertex_channel(v as nat, 0) as u8;
            let g = vertex_channel(v as nat, 1) as u8;
            let b = vertex_channel(v as nat, 2) as u8;
            &&& grid_offset(r) == 0
            &&& grid_offset(g) == 0
            &&& grid_offset(b) == 0
            &&& vertex_of(grid_bin(r), grid_bin(g), grid_bin(b)) == v
        }),
{
    let ri = v / 1024;
    let gi = v / 32 % 32;
    let bi = v % 32;
    assert(ri < 32);
    assert((ri * 32 + gi) * 32 + bi == v);
    assert((ri * 8) as u8 == ri * 8);
    assert((gi * 8) as u8 == gi * 8);
    assert((bi * 8) as u8 == bi * 8);
}

} // verus!
