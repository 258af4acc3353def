use vstd::prelude::*;

verus! {

/// Failure of one call to an upstream service.
#[derive(Clone, Copy, Debug, PartialEq, Eq, Structural)]
pub enum UpstreamError {
    /// Transport failure, timeout or a non-success status.
    Unavailable,
    /// The keyed record does not exist upstream.
    NotFound,
}

/// Failure of a whole aggregation request, as its caller sees it.
#[derive(Clone, Copy, Debug, PartialEq, Eq, Structural)]
pub enum AggregationError {
    UpstreamUnavailable,
    NotFound,
    StudentNotFound,
    InvalidInput,
}

impl AggregationError {
    /// The request-level error for a failed call to the offer source.
    pub open spec fn of_offer_source(e: UpstreamError) -> AggregationError {
        match e {
            UpstreamError::Unavailable => AggregationError::UpstreamUnavailable,
            UpstreamError::NotFound => AggregationError::NotFound,
        }
    }

    pub fn from_offer_source(e: UpstreamError) -> (r: AggregationError)
        ensures
            r == AggregationError::of_offer_source(e),
    {
        match e {
            UpstreamError::Unavailable => AggregationError::UpstreamUnavailable,
            UpstreamError::NotFound => AggregationError::NotFound,
        }
    }
}

} // verus!
