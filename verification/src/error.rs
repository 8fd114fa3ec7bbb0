use vstd::prelude::*;

verus! {

/// The single tagged error a run can end with.
#[derive(Clone, Copy, Debug, PartialEq, Eq, Structural)]
pub enum PipelineError {
    /// The processing type is not recognized, or the configuration of the
    /// selected engine is missing.
    InvalidConfig,
    /// The capture engine could not start, or failed while running.
    CaptureError,
    /// The uploaded path does not resolve to a file.
    FileNotFound,
    /// The decode engine does not recognize the container or codec.
    UnsupportedFormat,
    /// The decode engine met corrupt data.
    DecodeError,
    /// The inference engine failed on a frame.
    ProcessingError,
    /// A collection invariant was found broken while assembling results.
    InternalError,
}

} // verus!
