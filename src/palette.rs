use vstd::prelude::*;

use crate::config::{K, PALETTE_VALUES};
use crate::error::{RecolorError, Result};

verus! {

/// Checks a palette given as interleaved channel values (three per colour)
/// and returns its number of colours: exactly `K` colours are accepted.
pub fn palette_colors(n_values: usize) -> (r: Result<usize>)
    ensures
        r is Ok <==> n_values == PALETTE_VALUES,
        r is Ok ==> r->Ok_0 == K,
        r is Err ==> r->Err_0 == (RecolorError::PaletteLengthError {
            expected: PALETTE_VALUES,
            found: n_values,
        }),
{
    if n_values == PALETTE_VALUES {
        Ok(K)
    } else {
        Err(RecolorError::PaletteLengthError { expected: PALETTE_VALUES, found: n_values })
    }
}

/// Checks that the histogram has enough non-empty cells to seed `K`
/// clusters, one distinct cell per seed.
pub fn check_seedable(n_cells: usize) -> (r: Result<()>)
    ensures
        r is Ok <==> n_cells >= K,
        r is Err ==> r->Err_0 == RecolorError::KMeansInitError,
{
    if n_cells >= K {
        Ok(())
    } else {
        Err(RecolorError::KMeansInitError)
    }
}

} // verus!
