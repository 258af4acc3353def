use polytech::error::AggregationError;
use polytech::news::{found_score, prepare_news, CityScore, News, NewsError};
use polytech::offer::{upstream_filter, OfferFilter};
use polytech::query::{default_limit, default_recommended_limit, OffersQuery, RecommendedOffersQuery};
use polytech::student::{student_id_from_text, CreateStudentRequest, Student, UpdateStudentRequest};

fn score(q: i32, s: i32, e: i32, c: i32) -> CityScore {
    CityScore {
        city: "Lyon".to_string(),
        country: "France".to_string(),
        quality_of_life: q,
        safety: s,
        economy: e,
        culture: c,
        last_updated: "old".to_string(),
    }
}

fn news(id: &str, tags: &[&str]) -> News {
    News {
        id: id.to_string(),
        name: "headline".to_string(),
        source: "wire".to_string(),
        date: "2025-05-05".to_string(),
        tags: tags.iter().map(|t| t.to_string()).collect(),
        city: "Lyon".to_string(),
        country: "France".to_string(),
    }
}

#[test]
fn city_filter_takes_precedence() {
    assert_eq!(upstream_filter(Some("Paris".to_string()), Some("tech".to_string())), OfferFilter::City("Paris".to_string()));
    assert_eq!(upstream_filter(None, Some("tech".to_string())), OfferFilter::Domain("tech".to_string()));
    assert_eq!(upstream_filter(None, None), OfferFilter::All);
    assert_eq!(OfferFilter::City("Paris".to_string()).query_string(), "city=Paris");
    assert_eq!(OfferFilter::Domain("law".to_string()).query_string(), "domain=law");
    assert_eq!(OfferFilter::All.query_string(), "");
}

#[test]
fn query_defaults() {
    assert_eq!(default_limit(), 10);
    assert_eq!(default_recommended_limit(), 5);
    let q = OffersQuery::from_parts(None, Some("Paris".to_string()), None);
    assert_eq!(q.limit, 10);
    assert_eq!(q.city, Some("Paris".to_string()));
    assert_eq!(OffersQuery::from_parts(Some(3), None, None).limit, 3);
    let r = RecommendedOffersQuery::from_parts(None, Some("safety".to_string()));
    assert_eq!(r.limit, 5);
    assert_eq!(r.sort_by, Some("safety".to_string()));
}

#[test]
fn student_identifiers() {
    assert_eq!(
        student_id_from_text("67e55044-10b1-426f-9247-bb680e5fe0c8"),
        Ok(0x67e5504410b1426f9247bb680e5fe0c8u128)
    );
    assert_eq!(student_id_from_text("not-a-uuid"), Err(AggregationError::InvalidInput));
    assert_eq!(student_id_from_text(""), Err(AggregationError::InvalidInput));
}

#[test]
fn new_students_get_version_four_ids() {
    let s = Student::new("Ada".to_string(), "Lovelace".to_string(), "math".to_string());
    assert_eq!((s.id >> 76) & 0xf, 4);
    assert_eq!(s.domain, "math");
    let t = CreateStudentRequest { firstname: "Alan".to_string(), name: "Turing".to_string(), domain: "cs".to_string() }
        .into_student();
    assert_eq!(t.name, "Turing");
    assert_ne!(s.id, t.id);
}

#[test]
fn student_update_keeps_absent_fields() {
    let s = Student { id: 7, firstname: "Ada".to_string(), name: "Lovelace".to_string(), domain: "math".to_string() };
    let u = s.with_update(UpdateStudentRequest { firstname: None, name: Some("King".to_string()), domain: Some("cs".to_string()) });
    assert_eq!(u.id, 7);
    assert_eq!(u.firstname, "Ada");
    assert_eq!(u.name, "King");
    assert_eq!(u.domain, "cs");
}

#[test]
fn total_score_sums_dimensions() {
    assert_eq!(score(1000, 900, 800, 700).total_score(), 3400);
    assert_eq!(score(0, 0, 0, 0).total_score(), 0);
}

#[test]
fn new_city_score_starts_at_a_thousand() {
    let s = CityScore::new("Nantes".to_string(), "France".to_string());
    assert_eq!((s.quality_of_life, s.safety, s.economy, s.culture), (1000, 1000, 1000, 1000));
    assert_eq!(s.city, "Nantes");
    assert!(!s.last_updated.is_empty());
}

#[test]
fn tags_apply_their_rules() {
    let mut s = score(100, 100, 100, 100);
    s.apply_tags(&vec!["innovation".to_string(), "crime".to_string(), "weather".to_string()]);
    assert_eq!((s.quality_of_life, s.safety, s.economy, s.culture), (100, 90, 108, 102));
    assert_ne!(s.last_updated, "old");
    let mut t = score(100, 100, 100, 100);
    t.apply_tags(&vec!["culture".to_string(), "healthcare".to_string(), "entertainment".to_string()]);
    assert_eq!((t.quality_of_life, t.safety, t.economy, t.culture), (113, 102, 105, 115));
}

#[test]
fn scores_are_floored_at_zero() {
    let mut s = score(10, 20, 5, 3);
    s.apply_tags(&vec!["disaster".to_string(), "crisis".to_string()]);
    assert_eq!((s.quality_of_life, s.safety, s.economy, s.culture), (0, 0, 0, 0));
    let mut t = score(30, 30, 30, 30);
    t.apply_tags(&vec!["disaster".to_string(), "culture".to_string()]);
    assert_eq!((t.quality_of_life, t.safety, t.economy, t.culture), (17, 15, 10, 35));
}

#[test]
fn preparing_news_for_a_new_city() {
    match prepare_news(news("", &["crisis"]), Ok(None)) {
        Ok((n, s)) => {
            assert_eq!(n.id.len(), 36);
            assert_eq!(n.name, "headline");
            assert_eq!((s.quality_of_life, s.safety, s.economy, s.culture), (990, 995, 990, 1000));
            assert_eq!(s.city, "Lyon");
        }
        Err(_) => panic!("expected a score"),
    }
}

#[test]
fn preparing_news_for_a_known_city() {
    match prepare_news(news("n-1", &["healthcare"]), Ok(Some(score(50, 50, 50, 50)))) {
        Ok((n, s)) => {
            assert_eq!(n.id, "n-1");
            assert_eq!((s.quality_of_life, s.safety, s.economy, s.culture), (58, 52, 50, 50));
        }
        Err(_) => panic!("expected a score"),
    }
    match prepare_news(news("n-2", &[]), Err(NewsError::DatabaseError("down".to_string()))) {
        Err(e) => assert_eq!(e, NewsError::DatabaseError("down".to_string())),
        Ok(_) => panic!("expected a failure"),
    }
}

#[test]
fn city_scores_are_found_or_not() {
    assert_eq!(found_score(Ok(Some(score(1, 2, 3, 4)))).map(|s| s.culture), Ok(4));
    assert_eq!(found_score(Ok(None)).map(|s| s.culture), Err(NewsError::NotFound));
    assert_eq!(
        found_score(Err(NewsError::DatabaseError("x".to_string()))).map(|s| s.culture),
        Err(NewsError::DatabaseError("x".to_string()))
    );
}
