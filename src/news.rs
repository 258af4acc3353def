use vstd::prelude::*;
use crate::ids::{random_uuid, uuid_text};

verus! {

/// A news item as published by the news and scoring service.
#[derive(Clone, Debug)]
pub struct News {
    pub id: String,
    pub name: String,
    pub source: String,
    pub date: String,
    pub tags: Vec<String>,
    pub city: String,
    pub country: String,
}

/// The score snapshot of one city.
#[derive(Clone, Debug)]
pub struct CityScore {
    pub city: String,
    pub country: String,
    pub quality_of_life: i32,
    pub safety: i32,
    pub economy: i32,
    pub culture: i32,
    pub last_updated: String,
}

/// Failure of the news store.
#[derive(Clone, Debug, PartialEq, Eq)]
pub enum NewsError {
    DatabaseError(String),
    NotFound,
}

impl CityScore {
    /// Sum of the four dimensions.
    pub open spec fn total(&self) -> int {
        self.quality_of_life + self.safety + self.economy + self.culture
    }

    pub fn total_score(&self) -> (r: i32)
        requires
            i32::MIN <= self.total() <= i32::MAX,
        ensures
            r == self.total(),
    {
        let a = self.quality_of_life as i64 + self.safety as i64;
        let b = self.economy as i64 + self.culture as i64;
        (a + b) as i32
    }
}

/// Relies on chrono::Utc::now and DateTime::to_rfc3339: the current time
/// as RFC 3339 text. Nothing is assumed of its value.
#[verifier::external_body]
fn now_rfc3339() -> String {
    chrono::Utc::now().to_rfc3339()
}

/// The score every dimension of a city starts from.
pub const INITIAL_SCORE: i32 = 1000;

/// A change to the four score dimensions.
pub struct ScoreEffect {
    pub quality_of_life: int,
    pub safety: int,
    pub economy: int,
    pub culture: int,
}

pub open spec fn effect(quality_of_life: int, safety: int, economy: int, culture: int) -> ScoreEffect {
    ScoreEffect { quality_of_life, safety, economy, culture }
}

/// What one tag of a news item does to its city's score; an unknown tag
/// does nothing.
pub open spec fn tag_effect(tag: Seq<char>) -> ScoreEffect {
    if tag == "innovation"@ {
        effect(5, 0, 10, 2)
    } else if tag == "culture"@ {
        effect(2, 0, 0, 10)
    } else if tag == "healthcare"@ {
        effect(8, 2, 0, 0)
    } else if tag == "entertainment"@ {
        effect(3, 0, 5, 5)
    } else if tag == "crisis"@ {
        effect(-10, -5, -10, 0)
    } else if tag == "crime"@ {
        effect(-5, -10, -2, 0)
    } else if tag == "disaster"@ {
        effect(-15, -15, -20, -5)
    } else {
        effect(0, 0, 0, 0)
    }
}

/// The summed effect of a sequence of tags.
pub open spec fn tags_effect(tags: Seq<Seq<char>>) -> ScoreEffect
    decreases tags.len(),
{
    if tags.len() == 0 {
        effect(0, 0, 0, 0)
    } else {
        let e = tags_effect(tags.drop_last());
        let t = tag_effect(tags.last());
        effect(
            e.quality_of_life + t.quality_of_life,
            e.safety + t.safety,
            e.economy + t.economy,
            e.culture + t.culture,
        )
    }
}

pub open spec fn fits_i32(v: int) -> bool {
    i32::MIN <= v <= i32::MAX
}

pub open spec fn tag_texts(tags: Seq<String>) -> Seq<Seq<char>> {
    tags.map_values(|t: String| t@)
}

/// Applying the first `n` tags to the dimensions `d` keeps each one an `i32`.
pub open spec fn prefix_fits(d: ScoreEffect, tags: Seq<Seq<char>>, n: int) -> bool {
    let e = tags_effect(tags.take(n));
    &&& fits_i32(d.quality_of_life + e.quality_of_life)
    &&& fits_i32(d.safety + e.safety)
    &&& fits_i32(d.economy + e.economy)
    &&& fits_i32(d.culture + e.culture)
}

/// Applying the tags one by one to the dimensions `d` never leaves the
/// range of `i32`.
pub open spec fn tags_fit(d: ScoreEffect, tags: Seq<Seq<char>>) -> bool {
    forall|n: int| 0 <= n <= tags.len() ==> #[trigger] prefix_fits(d, tags, n)
}

/// The four dimensions of a score.
pub open spec fn dims(s: CityScore) -> ScoreEffect {
    effect(s.quality_of_life as int, s.safety as int, s.economy as int, s.culture as int)
}

/// The dimensions of a fresh score.
pub open spec fn initial_dims() -> ScoreEffect {
    effect(INITIAL_SCORE as int, INITIAL_SCORE as int, INITIAL_SCORE as int, INITIAL_SCORE as int)
}

pub open spec fn floor_zero(v: int) -> int {
    if v < 0 {
        0
    } else {
        v
    }
}

/// `r` is `s` after the effect `e`, each dimension floored at zero.
pub open spec fn scored(r: CityScore, s: CityScore, e: ScoreEffect) -> bool {
    &&& r.city == s.city
    &&& r.country == s.country
    &&& r.quality_of_life == floor_zero(s.quality_of_life + e.quality_of_life)
    &&& r.safety == floor_zero(s.safety + e.safety)
    &&& r.economy == floor_zero(s.economy + e.economy)
    &&& r.culture == floor_zero(s.culture + e.culture)
}

fn tag_delta(tag: &String) -> (r: (i32, i32, i32, i32))
    ensures
        r.0 == tag_effect(tag@).quality_of_life,
        r.1 == tag_effect(tag@).safety,
        r.2 == tag_effect(tag@).economy,
        r.3 == tag_effect(tag@).culture,
{
    if *tag == "innovation".to_owned() {
        (5, 0, 10, 2)
    } else if *tag == "culture".to_owned() {
        (2, 0, 0, 10)
    } else if *tag == "healthcare".to_owned() {
        (8, 2, 0, 0)
    } else if *tag == "entertainment".to_owned() {
        (3, 0, 5, 5)
    } else if *tag == "crisis".to_owned() {
        (-10, -5, -10, 0)
    } else if *tag == "crime".to_owned() {
        (-5, -10, -2, 0)
    } else if *tag == "disaster".to_owned() {
        (-15, -15, -20, -5)
    } else {
        (0, 0, 0, 0)
    }
}

impl CityScore {
    /// The score of a city seen for the first time: every dimension at
    /// `INITIAL_SCORE`, stamped with the current time.
    pub fn new(city: String, country: String) -> (r: CityScore)
        ensures
            r.city == city,
            r.country == country,
            r.quality_of_life == INITIAL_SCORE,
            r.safety == INITIAL_SCORE,
            r.economy == INITIAL_SCORE,
            r.culture == INITIAL_SCORE,
    {
        CityScore {
            city,
            country,
            quality_of_life: INITIAL_SCORE,
            safety: INITIAL_SCORE,
            economy: INITIAL_SCORE,
            culture: INITIAL_SCORE,
            last_updated: now_rfc3339(),
        }
    }

    /// Applies the scoring rule of each tag in turn, then floors every
    /// dimension at zero and stamps the current time.
    pub fn apply_tags(&mut self, tags: &Vec<String>)
        requires
            tags_fit(dims(*old(self)), tag_texts(tags@)),
        ensures
            scored(*final(self), *old(self), tags_effect(tag_texts(tags@))),
    {
        let ghost start = *self;
        let ghost texts = tag_texts(tags@);
        let mut i: usize = 0;
        while i < tags.len()
            invariant
                i <= tags.len(),
                texts == tag_texts(tags@),
                tags_fit(dims(start), texts),
                self.city == start.city,
                self.country == start.country,
                self.quality_of_life == start.quality_of_life + tags_effect(texts.take(i as int)).quality_of_life,
                self.safety == start.safety + tags_effect(texts.take(i as int)).safety,
                self.economy == start.economy + tags_effect(texts.take(i as int)).economy,
                self.culture == start.culture + tags_effect(texts.take(i as int)).culture,
            decreases tags.len() - i,
        {
            let d = tag_delta(&tags[i]);
            proof {
                assert(texts.take(i + 1).drop_last() =~= texts.take(i as int));
                assert(texts.take(i + 1).last() == tags@[i as int]@);
                assert(prefix_fits(dims(start), texts, i + 1));
            }
            self.quality_of_life = self.quality_of_life + d.0;
            self.safety = self.safety + d.1;
            self.economy = self.economy + d.2;
            self.culture = self.culture + d.3;
            i += 1;
        }
        assert(texts.take(tags.len() as int) =~= texts);
        if self.quality_of_life < 0 {
            self.quality_of_life = 0;
        }
        if self.safety < 0 {
            self.safety = 0;
        }
        if self.economy < 0 {
            self.economy = 0;
        }
        if self.culture < 0 {
            self.culture = 0;
        }
        self.last_updated = now_rfc3339();
    }
}

/// Decides what publishing `news` stores, from the city's current score as
/// the store returned it: a failed lookup ends there; else the news item,
/// with a fresh identifier if it had none, and its city's score (a fresh
/// one where the city had none) after the news item's tags.
pub fn prepare_news(news: News, current: Result<Option<CityScore>, NewsError>) -> (r: Result<
    (News, CityScore),
    NewsError,
>)
    requires
        current matches Ok(Some(s)) ==> tags_fit(dims(s), tag_texts(news.tags@)),
        current matches Ok(None) ==> tags_fit(initial_dims(), tag_texts(news.tags@)),
    ensures
        current is Err ==> r == Err::<(News, CityScore), NewsError>(current->Err_0),
        current is Ok ==> r is Ok,
        r is Ok ==> {
            let (n, s) = r->Ok_0;
            &&& n.name == news.name && n.source == news.source && n.date == news.date
            &&& n.tags == news.tags && n.city == news.city && n.country == news.country
            &&& news.id@.len() > 0 ==> n.id == news.id
            &&& news.id@.len() == 0 ==> n.id@.len() == 36
            &&& current matches Ok(Some(c)) ==> scored(s, c, tags_effect(tag_texts(news.tags@)))
            &&& current matches Ok(None) ==> s.city == news.city && s.country == news.country
                && s.quality_of_life == floor_zero(INITIAL_SCORE + tags_effect(tag_texts(news.tags@)).quality_of_life)
                && s.safety == floor_zero(INITIAL_SCORE + tags_effect(tag_texts(news.tags@)).safety)
                && s.economy == floor_zero(INITIAL_SCORE + tags_effect(tag_texts(news.tags@)).economy)
                && s.culture == floor_zero(INITIAL_SCORE + tags_effect(tag_texts(news.tags@)).culture)
        },
{
    let current = match current {
        Err(e) => {
            return Err(e);
        },
        Ok(c) => c,
    };
    let mut news = news;
    if news.id.as_str().is_empty() {
        news.id = uuid_text(random_uuid());
    }
    let mut score = match current {
        Some(s) => s,
        None => CityScore::new(news.city.clone(), news.country.clone()),
    };
    score.apply_tags(&news.tags);
    Ok((news, score))
}

/// A city's score as a reader asks for it: a city with no score is not
/// found; a store failure is passed on.
pub fn found_score(found: Result<Option<CityScore>, NewsError>) -> (r: Result<CityScore, NewsError>)
    ensures
        found is Err ==> r == Err::<CityScore, NewsError>(found->Err_0),
        found matches Ok(Some(s)) ==> r == Ok::<CityScore, NewsError>(s),
        found matches Ok(None) ==> r == Err::<CityScore, NewsError>(NewsError::NotFound),
{
    match found {
        Err(e) => Err(e),
        Ok(Some(s)) => Ok(s),
        Ok(None) => Err(NewsError::NotFound),
    }
}

} // verus!
