use vstd::prelude::*;

verus! {

/// A bake configuration that cannot be run.
#[derive(Debug, Clone, Copy, PartialEq, Eq, Structural)]
pub enum ConfigError {
    /// A topology count is zero or negative.
    NonPositiveTopology,
    /// The topology needs more weights or scratch space than the device can index.
    TopologyTooLarge,
    /// A weight array of the wrong length was handed over.
    WeightCountMismatch { expected: usize, found: usize },
    /// A hash-grid dimension is zero, or the resolutions are out of order.
    InvalidGridShape,
    /// The hash-grid table holds more scalars than the device can index.
    GridTooLarge,
    /// A feature array of the wrong length was handed over.
    GridSizeMismatch { expected: usize, found: usize },
    /// The neural field's input layer does not match the encoder's width.
    InputWidthMismatch { expected: usize, found: usize },
    /// The sample resolution is below two texels.
    SampleResolutionTooSmall,
}

} // verus!
