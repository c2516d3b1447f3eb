use vstd::prelude::*;

use crate::config::{K, K_SQUARED};

verus! {

/// What one entry of the augmented blending system holds. Unknown
/// `i * K + k` is `lambda[i][k]`; row `i * K + j` states that the kernel
/// blend of anchor `i` reproduces `[i == j]` at old-palette colour `j`.
#[derive(Debug, Clone, Copy, PartialEq, Eq)]
pub enum SystemEntry {
    /// The entry is zero.
    Zero,
    /// The right-hand side is one.
    One,
    /// The Gaussian kernel of the distance between old-palette colours `j` and `k`.
    Kernel { j: usize, k: usize },
}

/// The entry `(row, col)` of the augmented `K * K` by `K * K + 1` blending
/// system. Row `row` is the equation of the pair `(i, j) = (row / K, row % K)`;
/// a column `col < K * K` is the unknown `lambda[col / K][col % K]`, and
/// column `K * K` the right-hand side `[i == j]`.
pub fn system_entry(row: usize, col: usize) -> (e: SystemEntry)
    requires
        row < K_SQUARED,
        col <= K_SQUARED,
    ensures
        col == K_SQUARED && row / K == row % K ==> e == SystemEntry::One,
        col == K_SQUARED && row / K != row % K ==> e == SystemEntry::Zero,
        col < K_SQUARED && col / K == row / K ==> e == (SystemEntry::Kernel {
            j: row % K,
            k: col % K,
        }),
        col < K_SQUARED && col / K != row / K ==> e == SystemEntry::Zero,
{
    let i = row / K;
    let j = row % K;
    if col == K_SQUARED {
        if i == j {
            SystemEntry::One
        } else {
            SystemEntry::Zero
        }
    } else if col / K == i {
        SystemEntry::Kernel { j, k: col % K }
    } else {
        SystemEntry::Zero
    }
}

/// The row of the solved system that holds `lambda[i][j]`.
pub fn lambda_row(i: usize, j: usize) -> (row: usize)
    requires
        i < K,
        j < K,
    ensures
        row == i * K + j,
        row < K_SQUARED,
{
    i * K + j
}

} // verus!
