use vstd::prelude::*;
use crate::error::{AggregationError, UpstreamError};
use crate::news::{CityScore, News};
use crate::offer::{ErasmumuOffer, OfferView};

verus! {

/// Most news items attached to one offer.
pub const NEWS_PER_CITY: usize = 3;

/// The four score dimensions attached to an offer.
#[derive(Clone, Copy, Debug, PartialEq, Eq, Structural)]
pub struct EnrichedScores {
    pub quality_of_life: i32,
    pub economy: i32,
    pub culture: i32,
    pub safety: i32,
}

impl EnrichedScores {
    /// All four dimensions at zero: the score of a city whose lookup failed.
    pub open spec fn zero() -> EnrichedScores {
        EnrichedScores { quality_of_life: 0, economy: 0, culture: 0, safety: 0 }
    }

    pub open spec fn of_city(s: CityScore) -> EnrichedScores {
        EnrichedScores {
            quality_of_life: s.quality_of_life,
            economy: s.economy,
            culture: s.culture,
            safety: s.safety,
        }
    }

    pub fn default_scores() -> (r: EnrichedScores)
        ensures
            r == EnrichedScores::zero(),
    {
        EnrichedScores { quality_of_life: 0, economy: 0, culture: 0, safety: 0 }
    }
}

/// A news item trimmed to what an offer's reader needs.
#[derive(Clone, Debug)]
pub struct EnrichedNews {
    pub title: String,
    pub source: String,
    pub date: String,
    pub tags: Vec<String>,
}

pub struct NewsItemView {
    pub title: Seq<char>,
    pub source: Seq<char>,
    pub date: Seq<char>,
    pub tags: Seq<Seq<char>>,
}

pub open spec fn text_views(s: Seq<String>) -> Seq<Seq<char>> {
    s.map_values(|t: String| t@)
}

impl View for EnrichedNews {
    type V = NewsItemView;

    open spec fn view(&self) -> NewsItemView {
        NewsItemView {
            title: self.title@,
            source: self.source@,
            date: self.date@,
            tags: text_views(self.tags@),
        }
    }
}

pub open spec fn news_views(s: Seq<EnrichedNews>) -> Seq<NewsItemView> {
    s.map_values(|n: EnrichedNews| n@)
}

/// The projection of an upstream news item.
pub open spec fn projected(n: News) -> NewsItemView {
    NewsItemView { title: n.name@, source: n.source@, date: n.date@, tags: text_views(n.tags@) }
}

/// What one city contributes to each of its offers.
#[derive(Clone, Debug)]
pub struct CityEnrichment {
    pub scores: EnrichedScores,
    pub news: Vec<EnrichedNews>,
}

pub struct EnrichmentView {
    pub scores: EnrichedScores,
    pub news: Seq<NewsItemView>,
}

impl View for CityEnrichment {
    type V = EnrichmentView;

    open spec fn view(&self) -> EnrichmentView {
        EnrichmentView { scores: self.scores, news: news_views(self.news@) }
    }
}

/// Zero scores and no news: what an offer carries when nothing is known of its city.
pub open spec fn no_enrichment() -> EnrichmentView {
    EnrichmentView { scores: EnrichedScores::zero(), news: Seq::empty() }
}

/// The two upstream answers for one city.
pub struct CityOutcome {
    pub score: Result<CityScore, UpstreamError>,
    pub news: Result<Vec<News>, UpstreamError>,
}

/// The enrichment of a city from its two answers: a failed score lookup
/// gives zero scores, a failed news lookup no news, and at most
/// `NEWS_PER_CITY` news items are kept, in upstream order.
pub open spec fn enrichment_of(o: CityOutcome) -> EnrichmentView {
    EnrichmentView {
        scores: match o.score {
            Ok(s) => EnrichedScores::of_city(s),
            Err(_) => EnrichedScores::zero(),
        },
        news: match o.news {
            Ok(n) => n@.take(
                if n@.len() <= NEWS_PER_CITY { n@.len() as int } else { NEWS_PER_CITY as int },
            ).map_values(|x: News| projected(x)),
            Err(_) => Seq::empty(),
        },
    }
}

pub open spec fn outcome_views(s: Seq<CityOutcome>) -> Seq<EnrichmentView> {
    s.map_values(|o: CityOutcome| enrichment_of(o))
}

/// An offer together with the enrichment of its city.
#[derive(Clone, Debug)]
pub struct EnrichedOffer {
    pub id: String,
    pub title: String,
    pub link: String,
    pub city: String,
    pub domain: String,
    pub salary_bits: u64,
    pub start_date: String,
    pub end_date: String,
    pub scores: EnrichedScores,
    pub latest_news: Vec<EnrichedNews>,
}

pub struct EnrichedOfferView {
    pub offer: OfferView,
    pub enrichment: EnrichmentView,
}

impl View for EnrichedOffer {
    type V = EnrichedOfferView;

    open spec fn view(&self) -> EnrichedOfferView {
        EnrichedOfferView {
            offer: OfferView {
                id: self.id@,
                title: self.title@,
                link: self.link@,
                city: self.city@,
                domain: self.domain@,
                salary_bits: self.salary_bits,
                start_date: self.start_date@,
                end_date: self.end_date@,
            },
            enrichment: EnrichmentView { scores: self.scores, news: news_views(self.latest_news@) },
        }
    }
}

pub open spec fn enriched_views(s: Seq<EnrichedOffer>) -> Seq<EnrichedOfferView> {
    s.map_values(|e: EnrichedOffer| e@)
}

pub open spec fn offer_views(s: Seq<ErasmumuOffer>) -> Seq<OfferView> {
    s.map_values(|o: ErasmumuOffer| o@)
}

/// The cities named by a sequence of offers, in offer order, repeats included.
pub open spec fn offer_cities(s: Seq<ErasmumuOffer>) -> Seq<Seq<char>> {
    s.map_values(|o: ErasmumuOffer| o.city@)
}

/// `j` is the first position of `c` in `cities`.
pub open spec fn is_first_index(cities: Seq<Seq<char>>, c: Seq<char>, j: int) -> bool {
    0 <= j < cities.len() && cities[j] == c && forall|k: int| 0 <= k < j ==> cities[k] != c
}

/// The enrichment found for city `c`: the one at its first position in
/// `cities`, or none where `c` is not there.
pub open spec fn enrichment_for_city(
    cities: Seq<Seq<char>>,
    found: Seq<EnrichmentView>,
    c: Seq<char>,
) -> EnrichmentView {
    if cities.contains(c) {
        found[choose|j: int| is_first_index(cities, c, j)]
    } else {
        no_enrichment()
    }
}

/// Each offer joined with the enrichment of its city, in offer order.
pub open spec fn joined(
    offers: Seq<OfferView>,
    cities: Seq<Seq<char>>,
    found: Seq<EnrichmentView>,
) -> Seq<EnrichedOfferView> {
    offers.map_values(
        |o: OfferView| EnrichedOfferView { offer: o, enrichment: enrichment_for_city(cities, found, o.city) },
    )
}

/// The first `limit` items, or all of them where there are fewer.
pub open spec fn truncated<T>(items: Seq<T>, limit: nat) -> Seq<T> {
    if items.len() <= limit {
        items
    } else {
        items.take(limit as int)
    }
}

/// A copy of a list of texts.
fn copy_texts(v: &Vec<String>) -> (r: Vec<String>)
    ensures
        r@ == v@,
{
    let mut r: Vec<String> = Vec::new();
    let mut i: usize = 0;
    while i < v.len()
        invariant
            i <= v.len(),
            r@ == v@.take(i as int),
        decreases v.len() - i,
    {
        r.push(v[i].clone());
        i += 1;
        assert(r@ =~= v@.take(i as int));
    }
    assert(v@.take(v.len() as int) =~= v@);
    r
}

impl EnrichedNews {
    /// The projection of an upstream news item.
    pub fn from_news(n: &News) -> (r: EnrichedNews)
        ensures
            r@ == projected(*n),
    {
        let tags = copy_texts(&n.tags);
        EnrichedNews { title: n.name.clone(), source: n.source.clone(), date: n.date.clone(), tags }
    }

    /// A copy with the same content.
    pub fn duplicate(&self) -> (r: EnrichedNews)
        ensures
            r@ == self@,
    {
        let tags = copy_texts(&self.tags);
        EnrichedNews {
            title: self.title.clone(),
            source: self.source.clone(),
            date: self.date.clone(),
            tags,
        }
    }
}

/// A copy of a list of news items.
fn copy_news(v: &Vec<EnrichedNews>) -> (r: Vec<EnrichedNews>)
    ensures
        news_views(r@) == news_views(v@),
{
    let mut r: Vec<EnrichedNews> = Vec::new();
    let mut i: usize = 0;
    while i < v.len()
        invariant
            i <= v.len(),
            r.len() == i,
            forall|k: int| 0 <= k < i ==> (#[trigger] r@[k])@ == v@[k]@,
        decreases v.len() - i,
    {
        let item = v[i].duplicate();
        r.push(item);
        i += 1;
    }
    assert(news_views(r@) =~= news_views(v@));
    r
}

/// Degrades each failed answer for a city to its default: zero scores for a
/// failed score lookup, no news for a failed news lookup.
pub fn enrich_city(outcome: &CityOutcome) -> (r: CityEnrichment)
    ensures
        r@ == enrichment_of(*outcome),
{
    let scores = match &outcome.score {
        Ok(s) => EnrichedScores {
            quality_of_life: s.quality_of_life,
            economy: s.economy,
            culture: s.culture,
            safety: s.safety,
        },
        Err(_) => EnrichedScores::default_scores(),
    };
    let mut news: Vec<EnrichedNews> = Vec::new();
    match &outcome.news {
        Ok(items) => {
            let n: usize = if items.len() <= NEWS_PER_CITY {
                items.len()
            } else {
                NEWS_PER_CITY
            };
            let ghost want = items@.take(n as int).map_values(|x: News| projected(x));
            let mut i: usize = 0;
            while i < n
                invariant
                    n <= items.len(),
                    i <= n,
                    want == items@.take(n as int).map_values(|x: News| projected(x)),
                    news.len() == i,
                    forall|k: int| 0 <= k < i ==> (#[trigger] news@[k])@ == projected(items@[k]),
                decreases n - i,
            {
                let item = EnrichedNews::from_news(&items[i]);
                news.push(item);
                i += 1;
            }
            assert(news_views(news@) =~= want);
        },
        Err(_) => {
            assert(news_views(news@) =~= Seq::empty());
        },
    }
    CityEnrichment { scores, news }
}

/// The distinct cities of `offers`: no city twice, and exactly the cities
/// that some offer names.
pub fn distinct_cities(offers: &Vec<ErasmumuOffer>) -> (r: Vec<String>)
    ensures
        text_views(r@).no_duplicates(),
        forall|c: Seq<char>| text_views(r@).contains(c) <==> offer_cities(offers@).contains(c),
{
    let mut r: Vec<String> = Vec::new();
    let mut i: usize = 0;
    while i < offers.len()
        invariant
            i <= offers.len(),
            text_views(r@).no_duplicates(),
            forall|j: int| 0 <= j < r.len() ==> offer_cities(offers@).take(i as int).contains(#[trigger] r@[j]@),
            forall|k: int| 0 <= k < i ==> text_views(r@).contains(#[trigger] offers@[k].city@),
        decreases offers.len() - i,
    {
        let city = &offers[i].city;
        let mut j: usize = 0;
        let mut seen = false;
        while j < r.len()
            invariant
                j <= r.len(),
                seen ==> text_views(r@).contains(city@),
                !seen ==> forall|k: int| 0 <= k < j ==> r@[k]@ != city@,
            decreases r.len() - j,
        {
            if r[j] == *city {
                seen = true;
                assert(text_views(r@)[j as int] == city@);
            }
            j += 1;
        }
        let ghost old_r = r@;
        let ghost before = offer_cities(offers@).take(i as int);
        let ghost after = offer_cities(offers@).take(i + 1);
        assert(after == before.push(city@));
        if !seen {
            r.push(city.clone());
            assert(text_views(r@) == text_views(old_r).push(city@));
            assert forall|a: int, b: int| 0 <= a < b < text_views(r@).len() implies text_views(r@)[a]
                != text_views(r@)[b] by {
                if b == r.len() - 1 {
                    assert(old_r[a]@ != city@);
                }
            }
        }
        assert forall|j2: int| 0 <= j2 < r.len() implies after.contains(#[trigger] r@[j2]@) by {
            if j2 < old_r.len() {
                assert(before.contains(old_r[j2]@));
                let w = choose|w: int| 0 <= w < before.len() && before[w] == old_r[j2]@;
                assert(after[w] == old_r[j2]@);
            } else {
                assert(after[i as int] == city@);
            }
        }
        assert forall|k: int| 0 <= k < i + 1 implies text_views(r@).contains(#[trigger] offers@[k].city@) by {
            if k < i {
                let w = choose|w: int| 0 <= w < text_views(old_r).len() && text_views(old_r)[w] == offers@[k].city@;
                assert(text_views(r@)[w] == offers@[k].city@);
            } else if seen {
            } else {
                assert(text_views(r@)[r.len() - 1] == city@);
            }
        }
        i += 1;
    }
    assert(offer_cities(offers@).take(offers.len() as int) =~= offer_cities(offers@));
    assert forall|c: Seq<char>| text_views(r@).contains(c) implies offer_cities(offers@).contains(c) by {
        let w = choose|w: int| 0 <= w < text_views(r@).len() && text_views(r@)[w] == c;
        assert(offer_cities(offers@).take(offers.len() as int).contains(r@[w]@));
    }
    assert forall|c: Seq<char>| offer_cities(offers@).contains(c) implies text_views(r@).contains(c) by {
        let w = choose|w: int| 0 <= w < offer_cities(offers@).len() && offer_cities(offers@)[w] == c;
        assert(text_views(r@).contains(offers@[w].city@));
    }
    r
}

/// The offers of one request after truncation, and the cities to enrich.
pub struct EnrichmentPlan {
    pub offers: Vec<ErasmumuOffer>,
    pub cities: Vec<String>,
}

impl EnrichmentPlan {
    /// `cities` names each city of `offers` exactly once, and no other.
    pub open spec fn covers_offers(&self) -> bool {
        &&& text_views(self.cities@).no_duplicates()
        &&& forall|c: Seq<char>|
            text_views(self.cities@).contains(c) <==> offer_cities(self.offers@).contains(c)
    }
}

/// First step of a request for enriched offers: fails as the offer source
/// failed, else keeps the first `limit` offers and lists their cities.
pub fn plan_enrichment(fetched: Result<Vec<ErasmumuOffer>, UpstreamError>, limit: usize) -> (r:
    Result<EnrichmentPlan, AggregationError>)
    ensures
        fetched is Err ==> r == Err::<EnrichmentPlan, AggregationError>(
            AggregationError::of_offer_source(fetched->Err_0),
        ),
        fetched is Ok ==> r is Ok && r->Ok_0.offers@ == truncated(fetched->Ok_0@, limit as nat)
            && r->Ok_0.covers_offers(),
{
    match fetched {
        Err(e) => Err(AggregationError::from_offer_source(e)),
        Ok(v) => {
            let mut offers = v;
            offers.truncate(limit);
            let cities = distinct_cities(&offers);
            Ok(EnrichmentPlan { offers, cities })
        },
    }
}

proof fn lemma_first_index_found(cities: Seq<Seq<char>>, found: Seq<EnrichmentView>, c: Seq<char>, j: int)
    requires
        is_first_index(cities, c, j),
    ensures
        enrichment_for_city(cities, found, c) == found[j],
{
    assert(cities.contains(c));
    let j2 = choose|j2: int| is_first_index(cities, c, j2);
    if j2 < j {
        assert(cities[j2] != c);
    } else if j < j2 {
        assert(cities[j] != c);
    }
}

fn position_of_city(cities: &Vec<String>, c: &String) -> (r: Option<usize>)
    ensures
        r is Some ==> is_first_index(text_views(cities@), c@, r->Some_0 as int),
        r is None ==> !text_views(cities@).contains(c@),
{
    let mut j: usize = 0;
    while j < cities.len()
        invariant
            j <= cities.len(),
            forall|k: int| 0 <= k < j ==> text_views(cities@)[k] != c@,
        decreases cities.len() - j,
    {
        if cities[j] == *c {
            return Some(j);
        }
        j += 1;
    }
    None
}

/// Last step of a request for enriched offers: `outcomes[i]` holds the
/// answers for `plan.cities[i]`. Each offer, in order, is joined with the
/// enrichment of its city.
pub fn complete_enrichment(plan: &EnrichmentPlan, outcomes: &Vec<CityOutcome>) -> (r: Vec<
    EnrichedOffer,
>)
    requires
        outcomes.len() == plan.cities.len(),
    ensures
        enriched_views(r@) == joined(
            offer_views(plan.offers@),
            text_views(plan.cities@),
            outcome_views(outcomes@),
        ),
{
    let mut found: Vec<CityEnrichment> = Vec::new();
    let mut i: usize = 0;
    while i < outcomes.len()
        invariant
            i <= outcomes.len(),
            found.len() == i,
            forall|k: int| 0 <= k < i ==> (#[trigger] found@[k])@ == enrichment_of(outcomes@[k]),
        decreases outcomes.len() - i,
    {
        let e = enrich_city(&outcomes[i]);
        found.push(e);
        i += 1;
    }
    let ghost cities = text_views(plan.cities@);
    let ghost views = outcome_views(outcomes@);
    let ghost want = joined(offer_views(plan.offers@), cities, views);
    let mut r: Vec<EnrichedOffer> = Vec::new();
    let mut i: usize = 0;
    while i < plan.offers.len()
        invariant
            i <= plan.offers.len(),
            found.len() == plan.cities.len(),
            forall|k: int| 0 <= k < found.len() ==> (#[trigger] found@[k])@ == views[k],
            cities == text_views(plan.cities@),
            views == outcome_views(outcomes@),
            views.len() == plan.cities.len(),
            want == joined(offer_views(plan.offers@), cities, views),
            r.len() == i,
            forall|k: int| 0 <= k < i ==> (#[trigger] r@[k])@ == want[k],
        decreases plan.offers.len() - i,
    {
        let o = &plan.offers[i];
        let (scores, news) = match position_of_city(&plan.cities, &o.city) {
            Some(j) => {
                proof {
                    lemma_first_index_found(cities, views, o.city@, j as int);
                }
                (found[j].scores, copy_news(&found[j].news))
            },
            None => {
                let none: Vec<EnrichedNews> = Vec::new();
                assert(news_views(none@) =~= Seq::empty());
                (EnrichedScores::default_scores(), none)
            },
        };
        let e = EnrichedOffer {
            id: o.id.clone(),
            title: o.title.clone(),
            link: o.link.clone(),
            city: o.city.clone(),
            domain: o.domain.clone(),
            salary_bits: o.salary_bits,
            start_date: o.start_date.clone(),
            end_date: o.end_date.clone(),
            scores,
            latest_news: news,
        };
        r.push(e);
        i += 1;
    }
    assert(enriched_views(r@) =~= want);
    r
}

/// One enrichment per distinct city: a plan that covers its offers asks for
/// exactly as many city enrichments as its offers name distinct cities,
/// however many offers share a city.
pub proof fn law_one_enrichment_per_distinct_city(plan: EnrichmentPlan)
    requires
        plan.covers_offers(),
    ensures
        plan.cities.len() == offer_cities(plan.offers@).to_set().len(),
{
    let cs = text_views(plan.cities@);
    cs.unique_seq_to_set();
    assert(cs.to_set() =~= offer_cities(plan.offers@).to_set()) by {
        assert forall|c: Seq<char>| cs.to_set().contains(c) == offer_cities(plan.offers@).to_set().contains(c) by {
            assert(cs.contains(c) == offer_cities(plan.offers@).contains(c));
        }
    }
}

/// The joined offers number `min(limit, offers available)`, and the i-th
/// one wraps the i-th offer of the source, whatever the enrichments are.
pub proof fn law_output_follows_offers(
    offers: Seq<ErasmumuOffer>,
    limit: nat,
    cities: Seq<Seq<char>>,
    found: Seq<EnrichmentView>,
)
    ensures
        joined(offer_views(truncated(offers, limit)), cities, found).len() == if offers.len()
            <= limit {
            offers.len()
        } else {
            limit
        },
        forall|i: int|
            0 <= i < joined(offer_views(truncated(offers, limit)), cities, found).len()
                ==> #[trigger] joined(offer_views(truncated(offers, limit)), cities, found)[i].offer
                == offers[i]@,
{
}

/// A failed score lookup for one city leaves every offer in that city with
/// all four scores at zero; the request itself still succeeds.
pub proof fn law_failed_score_gives_zero_scores(
    plan: EnrichmentPlan,
    outcomes: Seq<CityOutcome>,
    x: int,
)
    requires
        plan.covers_offers(),
        outcomes.len() == plan.cities.len(),
        0 <= x < plan.cities.len(),
        outcomes[x].score is Err,
    ensures
        forall|i: int|
            0 <= i < plan.offers.len() && plan.offers@[i].city@ == plan.cities@[x]@
                ==> (#[trigger] joined(
                offer_views(plan.offers@),
                text_views(plan.cities@),
                outcome_views(outcomes),
            )[i]).enrichment.scores == EnrichedScores::zero(),
{
    let cs = text_views(plan.cities@);
    let views = outcome_views(outcomes);
    assert forall|k: int| 0 <= k < x implies cs[k] != cs[x] by {
        assert(cs.no_duplicates());
    }
    assert(is_first_index(cs, cs[x], x));
    lemma_first_index_found(cs, views, cs[x], x);
}

} // verus!
