use vstd::prelude::*;

verus! {

/// Why an answer of an upstream service could not be turned into a report.
#[derive(Clone, Copy, Debug, PartialEq, Eq, Structural)]
pub enum FetchError {
    /// The answer is not JSON of the expected shape.
    UpstreamFormat,
    /// Two ATIS entries came back and neither carries the requested marker.
    ProtocolViolation,
}

} // verus!
