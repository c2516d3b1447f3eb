use vstd::prelude::*;

verus! {

/// Failures of the recoloring engine.
#[derive(Debug, Clone, PartialEq, Eq)]
pub enum RecolorError {
    /// No input image was named.
    MissingInputImage,
    /// The input image could not be read.
    IoError,
    /// The input image could not be decoded.
    DecodeError,
    /// Fewer non-empty histogram bins than palette colours.
    KMeansInitError,
    /// A line entered for a Lab colour is not three numbers.
    LABLineError(String),
    /// The blending system is singular.
    GaussError,
    /// A palette does not hold the expected number of colours.
    PaletteLengthError { expected: usize, found: usize },
}

pub type Result<T> = core::result::Result<T, RecolorError>;

} // verus!
