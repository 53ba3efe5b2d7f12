use vstd::prelude::*;

verus! {

/// Fatal failures decided by the library itself.
#[derive(Debug, Clone, PartialEq, Eq, Structural)]
pub enum MetricsError {
    /// A call succeeded structurally but carried no data payload.
    MissingPayload,
    /// The service reported a negative result count.
    NegativeCount,
    /// The cutoff date of a time window falls outside the representable calendar.
    DateOutOfRange,
    /// A row's cell count differs from the declared column count.
    RowWidthMismatch { expected: usize, found: usize },
}

} // verus!
