use vstd::prelude::*;

verus! {

/// Offers returned when a request for enriched offers gives no limit.
pub const DEFAULT_LIMIT: usize = 10;

/// Offers returned when a request for recommendations gives no limit.
pub const DEFAULT_RECOMMENDED_LIMIT: usize = 5;

pub fn default_limit() -> (r: usize)
    ensures
        r == DEFAULT_LIMIT,
{
    DEFAULT_LIMIT
}

pub fn default_recommended_limit() -> (r: usize)
    ensures
        r == DEFAULT_RECOMMENDED_LIMIT,
{
    DEFAULT_RECOMMENDED_LIMIT
}

/// A request for enriched offers.
pub struct OffersQuery {
    pub limit: usize,
    pub city: Option<String>,
    pub domain: Option<String>,
}

/// A request for a student's recommended offers.
pub struct RecommendedOffersQuery {
    pub limit: usize,
    pub sort_by: Option<String>,
}

impl OffersQuery {
    /// The request as read from its parameters; an absent limit is `DEFAULT_LIMIT`.
    pub fn from_parts(limit: Option<usize>, city: Option<String>, domain: Option<String>) -> (r:
        OffersQuery)
        ensures
            r.limit == (match limit {
                Some(n) => n,
                None => DEFAULT_LIMIT,
            }),
            r.city == city,
            r.domain == domain,
    {
        let limit = match limit {
            Some(n) => n,
            None => default_limit(),
        };
        OffersQuery { limit, city, domain }
    }
}

impl RecommendedOffersQuery {
    /// The request as read from its parameters; an absent limit is
    /// `DEFAULT_RECOMMENDED_LIMIT`.
    pub fn from_parts(limit: Option<usize>, sort_by: Option<String>) -> (r: RecommendedOffersQuery)
        ensures
            r.limit == (match limit {
                Some(n) => n,
                None => DEFAULT_RECOMMENDED_LIMIT,
            }),
            r.sort_by == sort_by,
    {
        let limit = match limit {
            Some(n) => n,
            None => default_recommended_limit(),
        };
        RecommendedOffersQuery { limit, sort_by }
    }
}

} // verus!
