use vstd::prelude::*;
use vstd::string::StringExecFns;

verus! {

/// A job offer as the offer catalog hands it out. The salary is carried as
/// the bit pattern of its IEEE-754 double: it is passed through unread.
#[derive(Clone, Debug)]
pub struct ErasmumuOffer {
    pub id: String,
    pub title: String,
    pub link: String,
    pub city: String,
    pub domain: String,
    pub salary_bits: u64,
    pub start_date: String,
    pub end_date: String,
}

pub struct OfferView {
    pub id: Seq<char>,
    pub title: Seq<char>,
    pub link: Seq<char>,
    pub city: Seq<char>,
    pub domain: Seq<char>,
    pub salary_bits: u64,
    pub start_date: Seq<char>,
    pub end_date: Seq<char>,
}

impl View for ErasmumuOffer {
    type V = OfferView;

    open spec fn view(&self) -> OfferView {
        OfferView {
            id: self.id@,
            title: self.title@,
            link: self.link@,
            city: self.city@,
            domain: self.domain@,
            salary_bits: self.salary_bits,
            start_date: self.start_date@,
            end_date: self.end_date@,
        }
    }
}

/// The one filter sent to the offer catalog.
#[derive(Clone, Debug, PartialEq, Eq)]
pub enum OfferFilter {
    All,
    City(String),
    Domain(String),
}

/// Picks the filter to send upstream: a city takes precedence over a domain.
pub fn upstream_filter(city: Option<String>, domain: Option<String>) -> (r: OfferFilter)
    ensures
        city is Some ==> r == OfferFilter::City(city->0),
        city is None && domain is Some ==> r == OfferFilter::Domain(domain->0),
        city is None && domain is None ==> r == OfferFilter::All,
{
    match city {
        Some(c) => OfferFilter::City(c),
        None => match domain {
            Some(d) => OfferFilter::Domain(d),
            None => OfferFilter::All,
        },
    }
}

impl OfferFilter {
    /// The query text of the filter: `city=<c>`, `domain=<d>`, or nothing.
    pub open spec fn query_text(self) -> Seq<char> {
        match self {
            OfferFilter::All => Seq::empty(),
            OfferFilter::City(c) => "city="@ + c@,
            OfferFilter::Domain(d) => "domain="@ + d@,
        }
    }

    pub fn query_string(&self) -> (r: String)
        ensures
            r@ == self.query_text(),
    {
        match self {
            OfferFilter::All => String::new(),
            OfferFilter::City(c) => {
                let mut q = "city=".to_owned();
                q.append(c.as_str());
                q
            },
            OfferFilter::Domain(d) => {
                let mut q = "domain=".to_owned();
                q.append(d.as_str());
                q
            },
        }
    }
}

} // verus!
