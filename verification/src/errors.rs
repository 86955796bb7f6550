use vstd::prelude::*;

verus! {

/// Errors of the sorter core.
///
/// `InvalidInput` and `ExtractionFailure` are recoverable: an attempted
/// lock is rejected and the machine stays in its prior mode.
/// `LoadFailure` means no usable trace could be supplied, which is fatal
/// to starting a session.
#[derive(Clone, Copy, Debug, PartialEq, Eq, Structural)]
pub enum SorterError {
    /// The histogram builder was handed an empty interval sequence, a
    /// zero bin count, or a degenerate sequence whose minimum equals its
    /// maximum.
    InvalidInput,
    /// The event extractor could not produce spike waveforms.
    ExtractionFailure,
    /// The data bridge could not supply a well-formed trace.
    LoadFailure,
}

} // verus!
