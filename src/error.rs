use vstd::prelude::*;

verus! {

/// Errors of this library. All of them are fatal to a run: they come from
/// its setup, or from a recording that a correctly provisioned run never
/// makes.
#[derive(Debug, Clone, Copy, PartialEq, Eq, Structural)]
pub enum InquisitorError {
    /// A duration string is not a decimal number followed by `s`, `m` or `h`.
    DurationParseError,
    /// The failure-body pattern is not a valid regular expression.
    InvalidFailurePattern,
    /// The latency histogram could not be built with the requested bounds.
    HistogramCreation,
    /// A latency exceeds the highest value the histogram can track.
    LatencyOutOfRange,
    /// The number of recorded outcomes has reached the largest `usize`.
    CounterOverflow,
}

impl InquisitorError {
    /// The error's message. A malformed duration has an empty message, so
    /// that the argument parser's own text stands alone.
    pub fn to_string(&self) -> (r: String)
        ensures
            r@ == match *self {
                InquisitorError::DurationParseError => Seq::<char>::empty(),
                InquisitorError::InvalidFailurePattern => "invalid failure-body pattern"@,
                InquisitorError::HistogramCreation => "failed to create histogram for response times"@,
                InquisitorError::LatencyOutOfRange => "time out of bounds"@,
                InquisitorError::CounterOverflow => "request counter overflow"@,
            },
    {
        match self {
            InquisitorError::DurationParseError => String::new(),
            InquisitorError::InvalidFailurePattern => "invalid failure-body pattern".to_owned(),
            InquisitorError::HistogramCreation => "failed to create histogram for response times".to_owned(),
            InquisitorError::LatencyOutOfRange => "time out of bounds".to_owned(),
            InquisitorError::CounterOverflow => "request counter overflow".to_owned(),
        }
    }
}

} // verus!
