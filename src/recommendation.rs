use vstd::prelude::*;
use crate::enrichment::{EnrichedOffer, truncated};
use crate::error::AggregationError;
use crate::ranking::{SortKey, sort_by_score, stably_sorted};
use crate::student::{Student, StudentError};

verus! {

/// How many offers are gathered for ranking before the caller's limit is
/// applied.
pub const RECOMMENDATION_POOL: usize = 100;

/// What a recommendation request does once its student is known: gather up
/// to `pool_limit` enriched offers of the student's domain, with no city filter.
pub struct RecommendationPlan {
    pub student: Student,
    pub domain: String,
    pub pool_limit: usize,
}

/// The request-level error for a failed student lookup.
pub open spec fn lookup_error(e: StudentError) -> AggregationError {
    match e {
        StudentError::NotFound => AggregationError::StudentNotFound,
        StudentError::DatabaseError(_) => AggregationError::UpstreamUnavailable,
        StudentError::InvalidData(_) => AggregationError::InvalidInput,
    }
}

/// First step of a recommendation request, from the student lookup. A
/// failed lookup ends the request there, before any offer is fetched.
pub fn begin_recommendation(lookup: Result<Student, StudentError>, pool_limit: usize) -> (r: Result<
    RecommendationPlan,
    AggregationError,
>)
    ensures
        lookup is Err ==> r == Err::<RecommendationPlan, AggregationError>(
            lookup_error(lookup->Err_0),
        ),
        lookup is Ok ==> r is Ok && r->Ok_0.student == lookup->Ok_0 && r->Ok_0.domain
            == lookup->Ok_0.domain && r->Ok_0.pool_limit == pool_limit,
{
    match lookup {
        Err(StudentError::NotFound) => Err(AggregationError::StudentNotFound),
        Err(StudentError::DatabaseError(_)) => Err(AggregationError::UpstreamUnavailable),
        Err(StudentError::InvalidData(_)) => Err(AggregationError::InvalidInput),
        Ok(student) => {
            let domain = student.domain.clone();
            Ok(RecommendationPlan { student, domain, pool_limit })
        },
    }
}

/// The dimension a requested sort stands for, if it names one.
pub open spec fn requested_key(sort_by: Option<String>) -> Option<SortKey> {
    match sort_by {
        Some(s) => SortKey::named(s@),
        None => None,
    }
}

/// Ranks a pool: sorted stably by the requested dimension, highest first,
/// when `sort_by` names one (any other name, or none, keeps the pool's
/// order), then cut to `limit` offers.
pub fn rank_offers(pool: Vec<EnrichedOffer>, sort_by: Option<String>, limit: usize) -> (r: Vec<
    EnrichedOffer,
>)
    ensures
        requested_key(sort_by) is None ==> r@ == truncated(pool@, limit as nat),
        requested_key(sort_by) is Some ==> exists|s: Seq<EnrichedOffer>|
            stably_sorted(s, pool@, requested_key(sort_by)->Some_0) && r@ == truncated(
                s,
                limit as nat,
            ),
{
    let mut ranked = pool;
    let key = match &sort_by {
        Some(s) => SortKey::parse(s.as_str()),
        None => None,
    };
    if let Some(k) = key {
        sort_by_score(&mut ranked, k);
    }
    let ghost sorted = ranked@;
    ranked.truncate(limit);
    assert(ranked@ == truncated(sorted, limit as nat));
    ranked
}

/// Last step of a recommendation request: fails as gathering the pool
/// failed, else pairs the student with the ranked pool.
pub fn finish_recommendation(
    student: Student,
    pool: Result<Vec<EnrichedOffer>, AggregationError>,
    sort_by: Option<String>,
    limit: usize,
) -> (r: Result<(Student, Vec<EnrichedOffer>), AggregationError>)
    ensures
        pool is Err ==> r == Err::<(Student, Vec<EnrichedOffer>), AggregationError>(pool->Err_0),
        pool is Ok && requested_key(sort_by) is None ==> r is Ok && r->Ok_0.0 == student
            && r->Ok_0.1@ == truncated(pool->Ok_0@, limit as nat),
        pool is Ok && requested_key(sort_by) is Some ==> r is Ok && r->Ok_0.0 == student
            && exists|s: Seq<EnrichedOffer>|
            stably_sorted(s, pool->Ok_0@, requested_key(sort_by)->Some_0) && r->Ok_0.1@
                == truncated(s, limit as nat),
{
    match pool {
        Err(e) => Err(e),
        Ok(offers) => Ok((student, rank_offers(offers, sort_by, limit))),
    }
}

} // verus!
