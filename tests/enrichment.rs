use polytech::enrichment::{
    complete_enrichment, distinct_cities, enrich_city, plan_enrichment, CityOutcome,
    EnrichedScores, EnrichmentPlan,
};
use polytech::error::{AggregationError, UpstreamError};
use polytech::news::{CityScore, News};
use polytech::offer::ErasmumuOffer;

fn offer(id: &str, city: &str, domain: &str) -> ErasmumuOffer {
    ErasmumuOffer {
        id: id.to_string(),
        title: format!("title {}", id),
        link: format!("https://jobs.example/{}", id),
        city: city.to_string(),
        domain: domain.to_string(),
        salary_bits: f64::to_bits(1850.5),
        start_date: "2025-09-01".to_string(),
        end_date: "2026-02-28".to_string(),
    }
}

fn score(city: &str, q: i32, s: i32, e: i32, c: i32) -> CityScore {
    CityScore {
        city: city.to_string(),
        country: "France".to_string(),
        quality_of_life: q,
        safety: s,
        economy: e,
        culture: c,
        last_updated: "2025-01-01T00:00:00+00:00".to_string(),
    }
}

fn news(name: &str, city: &str) -> News {
    News {
        id: format!("id-{}", name),
        name: name.to_string(),
        source: "Le Monde".to_string(),
        date: "2025-03-01".to_string(),
        tags: vec!["culture".to_string(), "innovation".to_string()],
        city: city.to_string(),
        country: "France".to_string(),
    }
}

fn outcome_for(city: &str) -> CityOutcome {
    match city {
        "Paris" => CityOutcome {
            score: Ok(score("Paris", 900, 700, 1100, 1200)),
            news: Ok(vec![news("expo", "Paris")]),
        },
        "Nice" => CityOutcome {
            score: Ok(score("Nice", 1000, 950, 800, 850)),
            news: Ok(vec![]),
        },
        _ => CityOutcome { score: Err(UpstreamError::NotFound), news: Ok(vec![]) },
    }
}

fn plan_of(offers: Vec<ErasmumuOffer>, limit: usize) -> EnrichmentPlan {
    match plan_enrichment(Ok(offers), limit) {
        Ok(p) => p,
        Err(_) => panic!("plan failed"),
    }
}

#[test]
fn scenario_two_cities_three_offers() {
    let offers = vec![
        offer("1", "Paris", "tech"),
        offer("2", "Paris", "finance"),
        offer("3", "Nice", "tech"),
    ];
    let plan = plan_of(offers, 10);
    assert_eq!(plan.cities.len(), 2);
    assert!(plan.cities.contains(&"Paris".to_string()));
    assert!(plan.cities.contains(&"Nice".to_string()));
    let outcomes: Vec<CityOutcome> = plan.cities.iter().map(|c| outcome_for(c)).collect();
    let enriched = complete_enrichment(&plan, &outcomes);
    assert_eq!(enriched.len(), 3);
    let ids: Vec<&str> = enriched.iter().map(|e| e.id.as_str()).collect();
    assert_eq!(ids, vec!["1", "2", "3"]);
    assert_eq!(enriched[0].scores.safety, 700);
    assert_eq!(enriched[1].scores.economy, 1100);
    assert_eq!(enriched[2].scores.quality_of_life, 1000);
    assert_eq!(enriched[0].latest_news.len(), 1);
    assert_eq!(enriched[0].latest_news[0].title, "expo");
    assert_eq!(enriched[0].latest_news[0].tags, vec!["culture".to_string(), "innovation".to_string()]);
    assert_eq!(enriched[2].latest_news.len(), 0);
    assert_eq!(enriched[1].salary_bits, f64::to_bits(1850.5));
    assert_eq!(enriched[1].domain, "finance");
}

#[test]
fn distinct_cities_collapse_repeats() {
    let offers = vec![
        offer("1", "Lyon", "tech"),
        offer("2", "Lyon", "tech"),
        offer("3", "Lyon", "law"),
        offer("4", "Lille", "law"),
    ];
    let cities = distinct_cities(&offers);
    assert_eq!(cities.len(), 2);
    assert!(cities.contains(&"Lyon".to_string()));
    assert!(cities.contains(&"Lille".to_string()));
    assert_eq!(distinct_cities(&vec![]).len(), 0);
}

#[test]
fn output_length_is_min_of_limit_and_offers() {
    let offers: Vec<ErasmumuOffer> =
        (0..5).map(|i| offer(&i.to_string(), if i % 2 == 0 { "Paris" } else { "Nice" }, "tech")).collect();
    let plan = plan_of(offers.clone(), 2);
    assert_eq!(plan.offers.len(), 2);
    assert_eq!(plan.offers[0].id, "0");
    assert_eq!(plan.offers[1].id, "1");
    let plan = plan_of(offers.clone(), 50);
    assert_eq!(plan.offers.len(), 5);
    let plan = plan_of(offers, 0);
    assert_eq!(plan.offers.len(), 0);
    assert_eq!(plan.cities.len(), 0);
    assert_eq!(complete_enrichment(&plan, &vec![]).len(), 0);
}

#[test]
fn truncation_applies_before_city_listing() {
    let offers = vec![offer("1", "Paris", "tech"), offer("2", "Nice", "tech")];
    let plan = plan_of(offers, 1);
    assert_eq!(plan.cities, vec!["Paris".to_string()]);
}

#[test]
fn failed_score_lookup_gives_zero_scores() {
    let offers = vec![
        offer("1", "Paris", "tech"),
        offer("2", "Nice", "tech"),
        offer("3", "Paris", "law"),
    ];
    let plan = plan_of(offers, 10);
    let outcomes: Vec<CityOutcome> = plan
        .cities
        .iter()
        .map(|c| {
            if c == "Paris" {
                CityOutcome { score: Err(UpstreamError::Unavailable), news: Ok(vec![news("fair", "Paris")]) }
            } else {
                outcome_for(c)
            }
        })
        .collect();
    let enriched = complete_enrichment(&plan, &outcomes);
    assert_eq!(enriched.len(), 3);
    assert_eq!(enriched[0].scores, EnrichedScores::default_scores());
    assert_eq!(enriched[2].scores, EnrichedScores::default_scores());
    assert_eq!(enriched[0].latest_news.len(), 1);
    assert_eq!(enriched[1].scores.safety, 950);
}

#[test]
fn failed_news_lookup_gives_no_news() {
    let e = enrich_city(&CityOutcome {
        score: Ok(score("Paris", 1, 2, 3, 4)),
        news: Err(UpstreamError::Unavailable),
    });
    assert_eq!(e.news.len(), 0);
    assert_eq!(
        e.scores,
        EnrichedScores { quality_of_life: 1, economy: 3, culture: 4, safety: 2 }
    );
}

#[test]
fn news_are_capped_at_three_in_order() {
    let items = vec![news("a", "Paris"), news("b", "Paris"), news("c", "Paris"), news("d", "Paris")];
    let e = enrich_city(&CityOutcome { score: Err(UpstreamError::NotFound), news: Ok(items) });
    let titles: Vec<&str> = e.news.iter().map(|n| n.title.as_str()).collect();
    assert_eq!(titles, vec!["a", "b", "c"]);
    assert_eq!(e.news[1].source, "Le Monde");
    assert_eq!(e.news[2].date, "2025-03-01");
    assert_eq!(e.scores, EnrichedScores::default_scores());
}

#[test]
fn unreachable_offer_source_fails_the_request() {
    match plan_enrichment(Err(UpstreamError::Unavailable), 10) {
        Err(e) => assert_eq!(e, AggregationError::UpstreamUnavailable),
        Ok(_) => panic!("expected a failure"),
    }
    match plan_enrichment(Err(UpstreamError::NotFound), 10) {
        Err(e) => assert_eq!(e, AggregationError::NotFound),
        Ok(_) => panic!("expected a failure"),
    }
}

#[test]
fn default_scores_are_zero() {
    let s = EnrichedScores::default_scores();
    assert_eq!((s.quality_of_life, s.economy, s.culture, s.safety), (0, 0, 0, 0));
}
