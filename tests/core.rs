use recolor::blend::{lambda_row, system_entry, SystemEntry};
use recolor::config::{HISTOGRAM_SIZE, K, LUT_SIZE, PALETTE_VALUES};
use recolor::error::RecolorError;
use recolor::histogram::{bin_counts, cell_index, nonempty_cells};
use recolor::lut::{sample, vertex_color, vertex_index, LutTap, WEIGHT_TOTAL};
use recolor::palette::{check_seedable, palette_colors};

fn solid(r: u8, g: u8, b: u8, n: usize) -> Vec<u8> {
    let mut px = Vec::new();
    for _ in 0..n {
        px.push(r);
        px.push(g);
        px.push(b);
    }
    px
}

#[test]
fn cell_index_is_red_major() {
    assert_eq!(cell_index(0, 0, 0), 0);
    assert_eq!(cell_index(0, 0, 15), 0);
    assert_eq!(cell_index(0, 0, 16), 1);
    assert_eq!(cell_index(0, 16, 0), 16);
    assert_eq!(cell_index(16, 0, 0), 256);
    assert_eq!(cell_index(128, 128, 128), (8 * 16 + 8) * 16 + 8);
    assert_eq!(cell_index(255, 255, 255), HISTOGRAM_SIZE - 1);
}

#[test]
fn solid_gray_fills_one_cell() {
    let px = solid(128, 128, 128, 4);
    let counts = bin_counts(&px);
    assert_eq!(counts.len(), HISTOGRAM_SIZE);
    let gray = cell_index(128, 128, 128);
    assert_eq!(counts[gray], 4);
    assert_eq!(counts.iter().sum::<usize>(), 4);
    assert_eq!(nonempty_cells(&counts), vec![gray]);
}

#[test]
fn empty_image_has_no_cells() {
    let counts = bin_counts(&Vec::new());
    assert_eq!(counts.len(), HISTOGRAM_SIZE);
    assert!(counts.iter().all(|&c| c == 0));
    assert!(nonempty_cells(&counts).is_empty());
}

#[test]
fn pixels_in_one_bin_share_a_count() {
    let px = vec![0, 0, 0, 15, 15, 15, 16, 0, 0, 255, 255, 255, 10, 3, 7];
    let counts = bin_counts(&px);
    assert_eq!(counts[0], 3);
    assert_eq!(counts[256], 1);
    assert_eq!(counts[HISTOGRAM_SIZE - 1], 1);
    assert_eq!(counts.iter().sum::<usize>(), 5);
    assert_eq!(nonempty_cells(&counts), vec![0, 256, HISTOGRAM_SIZE - 1]);
}

#[test]
fn vertex_index_and_color_agree() {
    assert_eq!(vertex_index(0, 0, 0), 0);
    assert_eq!(vertex_index(31, 31, 31), LUT_SIZE - 1);
    assert_eq!(vertex_index(1, 2, 3), (32 + 2) * 32 + 3);
    assert_eq!(vertex_color(0), (0, 0, 0));
    assert_eq!(vertex_color(LUT_SIZE - 1), (248, 248, 248));
    assert_eq!(vertex_color((32 + 2) * 32 + 3), (8, 16, 24));
    for v in [0usize, 1, 31, 32, 1023, 1024, 20000, LUT_SIZE - 1] {
        let (r, g, b) = vertex_color(v);
        let taps = sample(r, g, b);
        assert_eq!(taps[0], LutTap { vertex: v, weight: WEIGHT_TOTAL });
    }
}

#[test]
fn interior_pixel_gets_trilinear_weights() {
    // 3 steps into red, 5 into green, 0 into blue of cell (1, 2, 3).
    let taps = sample(11, 21, 24);
    assert_eq!(taps.len(), 8);
    let expect = [
        ((1, 2, 3), 5 * 3 * 8),
        ((1, 2, 4), 0),
        ((1, 3, 3), 5 * 5 * 8),
        ((1, 3, 4), 0),
        ((2, 2, 3), 3 * 3 * 8),
        ((2, 2, 4), 0),
        ((2, 3, 3), 3 * 5 * 8),
        ((2, 3, 4), 0),
    ];
    for (t, ((ri, gi, bi), w)) in expect.iter().enumerate() {
        assert_eq!(taps[t].vertex, vertex_index(*ri, *gi, *bi));
        assert_eq!(taps[t].weight, *w);
    }
    assert_eq!(taps.iter().map(|t| t.weight).sum::<u32>(), WEIGHT_TOTAL);
}

#[test]
fn weights_sum_to_cell_volume() {
    for (r, g, b) in [(1u8, 2u8, 3u8), (7, 7, 7), (100, 37, 200), (247, 247, 247), (9, 130, 66)] {
        let taps = sample(r, g, b);
        assert_eq!(taps.len(), 8);
        assert_eq!(taps.iter().map(|t| t.weight).sum::<u32>(), WEIGHT_TOTAL);
    }
}

#[test]
fn last_cell_uses_lower_vertex_alone() {
    let taps = sample(250, 10, 10);
    assert_eq!(taps, vec![LutTap { vertex: vertex_index(31, 1, 1), weight: WEIGHT_TOTAL }]);
    let taps = sample(0, 0, 255);
    assert_eq!(taps, vec![LutTap { vertex: vertex_index(0, 0, 31), weight: WEIGHT_TOTAL }]);
    let taps = sample(248, 248, 248);
    assert_eq!(taps, vec![LutTap { vertex: LUT_SIZE - 1, weight: WEIGHT_TOTAL }]);
}

#[test]
fn last_cell_uses_nearest_vertex() {
    // Green and blue 15 lie nearer vertex 2 (16) than vertex 1 (8).
    let taps = sample(255, 15, 15);
    assert_eq!(taps, vec![LutTap { vertex: vertex_index(31, 2, 2), weight: WEIGHT_TOTAL }]);
    assert_eq!(vertex_color(taps[0].vertex), (248, 16, 16));
    // 11 is nearer 8 than 16; 12 lies halfway and goes up.
    let taps = sample(11, 12, 252);
    assert_eq!(taps, vec![LutTap { vertex: vertex_index(1, 2, 31), weight: WEIGHT_TOTAL }]);
}

#[test]
fn interpolated_blend_reproduces_a_linear_grid() {
    // A grid that stores each vertex's own red value reproduces the red
    // channel of every interior pixel exactly.
    let grid: Vec<f64> = (0..LUT_SIZE).map(|v| vertex_color(v).0 as f64).collect();
    for r in [0u8, 5, 77, 130, 247] {
        let taps = sample(r, 40, 40);
        let value: f64 = taps.iter().map(|t| grid[t.vertex] * t.weight as f64).sum::<f64>()
            / WEIGHT_TOTAL as f64;
        assert!((value - r as f64).abs() < 1e-9);
    }
}

#[test]
fn palette_must_hold_k_colors() {
    assert_eq!(PALETTE_VALUES, 15);
    assert_eq!(palette_colors(15), Ok(K));
    assert_eq!(
        palette_colors(12),
        Err(RecolorError::PaletteLengthError { expected: 15, found: 12 })
    );
    assert_eq!(
        palette_colors(16),
        Err(RecolorError::PaletteLengthError { expected: 15, found: 16 })
    );
    assert_eq!(
        palette_colors(0),
        Err(RecolorError::PaletteLengthError { expected: 15, found: 0 })
    );
}

#[test]
fn seeding_needs_k_cells() {
    assert_eq!(check_seedable(5), Ok(()));
    assert_eq!(check_seedable(4096), Ok(()));
    assert_eq!(check_seedable(4), Err(RecolorError::KMeansInitError));
    assert_eq!(check_seedable(0), Err(RecolorError::KMeansInitError));
}

#[test]
fn solid_gray_cannot_seed_five_clusters() {
    let counts = bin_counts(&solid(128, 128, 128, 4));
    let cells = nonempty_cells(&counts);
    assert_eq!(check_seedable(cells.len()), Err(RecolorError::KMeansInitError));
}

#[test]
fn blending_system_layout() {
    // Row 7 is (i, j) = (1, 2).
    assert_eq!(system_entry(7, 5), SystemEntry::Kernel { j: 2, k: 0 });
    assert_eq!(system_entry(7, 9), SystemEntry::Kernel { j: 2, k: 4 });
    assert_eq!(system_entry(7, 0), SystemEntry::Zero);
    assert_eq!(system_entry(7, 10), SystemEntry::Zero);
    assert_eq!(system_entry(7, 25), SystemEntry::Zero);
    // Row 6 is (1, 1): its right-hand side is one.
    assert_eq!(system_entry(6, 25), SystemEntry::One);
    assert_eq!(system_entry(24, 25), SystemEntry::One);
    assert_eq!(system_entry(24, 20), SystemEntry::Kernel { j: 4, k: 0 });
    assert_eq!(lambda_row(1, 2), 7);
    assert_eq!(lambda_row(4, 4), 24);
}

#[test]
fn blending_system_rows_have_k_kernels() {
    for row in 0..K * K {
        let mut kernels = 0;
        let mut ones = 0;
        for col in 0..=K * K {
            match system_entry(row, col) {
                SystemEntry::Kernel { j, k } => {
                    assert_eq!(j, row % K);
                    assert_eq!(k, col % K);
                    kernels += 1;
                }
                SystemEntry::One => ones += 1,
                SystemEntry::Zero => {}
            }
        }
        assert_eq!(kernels, K);
        assert_eq!(ones, if row / K == row % K { 1 } else { 0 });
    }
}
