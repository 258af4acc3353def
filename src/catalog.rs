use vstd::prelude::*;
use crate::ids::{random_uuid, uuid_text};

verus! {

/// An offer record of the offer catalog. The salary is carried as the bit
/// pattern of its IEEE-754 double.
#[derive(Clone, Debug)]
pub struct Offer {
    pub id: String,
    pub title: String,
    pub link: String,
    pub city: String,
    pub domain: String,
    pub salary_bits: u64,
    pub start_date: String,
    pub end_date: String,
    pub available: bool,
}

/// Failure of the offer catalog.
#[derive(Clone, Debug, PartialEq, Eq)]
pub enum OfferError {
    NotFound,
    InvalidData(String),
    DatabaseError(String),
}

pub struct CreateOfferParams {
    pub title: String,
    pub link: String,
    pub city: String,
    pub domain: String,
    pub salary_bits: u64,
    pub start_date: String,
    pub end_date: String,
}

/// The fields to change in an offer; an absent field is kept.
pub struct UpdateOfferParams {
    pub title: Option<String>,
    pub link: Option<String>,
    pub city: Option<String>,
    pub domain: Option<String>,
    pub salary_bits: Option<u64>,
    pub start_date: Option<String>,
    pub end_date: Option<String>,
    pub available: Option<bool>,
}

/// The filters of a request to list offers.
pub struct ListParams {
    pub domain: Option<String>,
    pub city: Option<String>,
}

/// Which listing a request asks for.
#[derive(Clone, Debug, PartialEq, Eq)]
pub enum Listing {
    ByDomain(String),
    ByCity(String),
}

pub open spec fn or_else<T>(given: Option<T>, current: T) -> T {
    match given {
        Some(v) => v,
        None => current,
    }
}

/// Whether an offer is shown to readers.
pub open spec fn is_available(o: Offer) -> bool {
    o.available
}

impl Offer {
    /// A new, available offer under a fresh identifier.
    pub fn create(params: CreateOfferParams) -> (r: Offer)
        ensures
            r.id@.len() == 36,
            r.title == params.title,
            r.link == params.link,
            r.city == params.city,
            r.domain == params.domain,
            r.salary_bits == params.salary_bits,
            r.start_date == params.start_date,
            r.end_date == params.end_date,
            r.available,
    {
        Offer {
            id: uuid_text(random_uuid()),
            title: params.title,
            link: params.link,
            city: params.city,
            domain: params.domain,
            salary_bits: params.salary_bits,
            start_date: params.start_date,
            end_date: params.end_date,
            available: true,
        }
    }

    /// The offer after `params`: each field given replaces the current one;
    /// the identifier stays.
    pub open spec fn merged(self, params: UpdateOfferParams) -> Offer {
        Offer {
            id: self.id,
            title: or_else(params.title, self.title),
            link: or_else(params.link, self.link),
            city: or_else(params.city, self.city),
            domain: or_else(params.domain, self.domain),
            salary_bits: or_else(params.salary_bits, self.salary_bits),
            start_date: or_else(params.start_date, self.start_date),
            end_date: or_else(params.end_date, self.end_date),
            available: or_else(params.available, self.available),
        }
    }

    pub fn updated(self, params: UpdateOfferParams) -> (r: Offer)
        ensures
            r == self.merged(params),
    {
        Offer {
            id: self.id,
            title: match params.title {
                Some(v) => v,
                None => self.title,
            },
            link: match params.link {
                Some(v) => v,
                None => self.link,
            },
            city: match params.city {
                Some(v) => v,
                None => self.city,
            },
            domain: match params.domain {
                Some(v) => v,
                None => self.domain,
            },
            salary_bits: match params.salary_bits {
                Some(v) => v,
                None => self.salary_bits,
            },
            start_date: match params.start_date {
                Some(v) => v,
                None => self.start_date,
            },
            end_date: match params.end_date {
                Some(v) => v,
                None => self.end_date,
            },
            available: match params.available {
                Some(v) => v,
                None => self.available,
            },
        }
    }

    /// A copy with the same content.
    pub fn duplicate(&self) -> (r: Offer)
        ensures
            r == *self,
    {
        Offer {
            id: self.id.clone(),
            title: self.title.clone(),
            link: self.link.clone(),
            city: self.city.clone(),
            domain: self.domain.clone(),
            salary_bits: self.salary_bits,
            start_date: self.start_date.clone(),
            end_date: self.end_date.clone(),
            available: self.available,
        }
    }
}

/// The answer to a reader asking for one offer: a missing or withdrawn
/// offer is not found; a store failure is passed on.
pub fn visible_offer(found: Result<Option<Offer>, OfferError>) -> (r: Result<Offer, OfferError>)
    ensures
        found is Err ==> r == Err::<Offer, OfferError>(found->Err_0),
        found matches Ok(Some(o)) ==> r == if o.available {
            Ok::<Offer, OfferError>(o)
        } else {
            Err::<Offer, OfferError>(OfferError::NotFound)
        },
        found matches Ok(None) ==> r == Err::<Offer, OfferError>(OfferError::NotFound),
{
    match found {
        Err(e) => Err(e),
        Ok(Some(o)) => {
            if o.available {
                Ok(o)
            } else {
                Err(OfferError::NotFound)
            }
        },
        Ok(None) => Err(OfferError::NotFound),
    }
}

/// The available offers of a listing, in listing order; a store failure is
/// passed on.
pub fn available_offers(listed: Result<Vec<Offer>, OfferError>) -> (r: Result<Vec<Offer>, OfferError>)
    ensures
        listed is Err ==> r == Err::<Vec<Offer>, OfferError>(listed->Err_0),
        listed is Ok ==> r is Ok && r->Ok_0@ == listed->Ok_0@.filter(|o: Offer| is_available(o)),
{
    let v = match listed {
        Err(e) => {
            return Err(e);
        },
        Ok(v) => v,
    };
    let ghost keep = |o: Offer| is_available(o);
    let mut r: Vec<Offer> = Vec::new();
    let mut i: usize = 0;
    while i < v.len()
        invariant
            i <= v.len(),
            keep == (|o: Offer| is_available(o)),
            r@ == v@.take(i as int).filter(keep),
        decreases v.len() - i,
    {
        let ghost x = v@[i as int];
        proof {
            let before = v@.take(i as int);
            assert(v@.take(i + 1) =~= before + seq![x]);
            Seq::filter_distributes_over_add(before, seq![x], keep);
            Seq::<Offer>::empty().lemma_filter_prepend(x, keep);
            assert(seq![x] + Seq::<Offer>::empty() =~= seq![x]);
            Seq::<Offer>::empty().lemma_filter_len(keep);
            assert(Seq::<Offer>::empty().filter(keep) =~= Seq::<Offer>::empty());
            assert(before.filter(keep) + Seq::<Offer>::empty() =~= before.filter(keep));
            assert(before.filter(keep) + (seq![x] + Seq::<Offer>::empty()) =~= before.filter(
                keep,
            ).push(x));
        }
        if v[i].available {
            let o = v[i].duplicate();
            r.push(o);
        }
        i += 1;
    }
    assert(v@.take(v.len() as int) =~= v@);
    Ok(r)
}

/// The listing a request asks for: by domain where one is given, else by
/// city; a request with neither is rejected.
pub fn listing(params: ListParams) -> (r: Result<Listing, OfferError>)
    ensures
        params.domain is Some ==> r == Ok::<Listing, OfferError>(
            Listing::ByDomain(params.domain->Some_0),
        ),
        params.domain is None && params.city is Some ==> r == Ok::<Listing, OfferError>(
            Listing::ByCity(params.city->Some_0),
        ),
        params.domain is None && params.city is None ==> r matches Err(OfferError::InvalidData(_)),
{
    match params.domain {
        Some(d) => Ok(Listing::ByDomain(d)),
        None => match params.city {
            Some(c) => Ok(Listing::ByCity(c)),
            None => Err(
                OfferError::InvalidData("Query parameter 'domain' or 'city' is required".to_owned()),
            ),
        },
    }
}

/// The record an update stores, from the current record as the store
/// returned it: a missing offer is not found, a store failure is passed on.
pub fn update_target(found: Result<Option<Offer>, OfferError>, params: UpdateOfferParams) -> (r:
    Result<Offer, OfferError>)
    ensures
        found is Err ==> r == Err::<Offer, OfferError>(found->Err_0),
        found matches Ok(None) ==> r == Err::<Offer, OfferError>(OfferError::NotFound),
        found matches Ok(Some(o)) ==> r == Ok::<Offer, OfferError>(o.merged(params)),
{
    match found {
        Err(e) => Err(e),
        Ok(None) => Err(OfferError::NotFound),
        Ok(Some(o)) => Ok(o.updated(params)),
    }
}

} // verus!
