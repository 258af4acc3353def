use polytech::catalog::{
    available_offers, listing, update_target, visible_offer, CreateOfferParams, ListParams, Listing,
    Offer, OfferError, UpdateOfferParams,
};

fn offer(id: &str, available: bool) -> Offer {
    Offer {
        id: id.to_string(),
        title: "Data intern".to_string(),
        link: "https://jobs.example/1".to_string(),
        city: "Berlin".to_string(),
        domain: "tech".to_string(),
        salary_bits: f64::to_bits(1500.0),
        start_date: "2025-09-01".to_string(),
        end_date: "2026-03-01".to_string(),
        available,
    }
}

fn no_change() -> UpdateOfferParams {
    UpdateOfferParams {
        title: None,
        link: None,
        city: None,
        domain: None,
        salary_bits: None,
        start_date: None,
        end_date: None,
        available: None,
    }
}

#[test]
fn created_offers_are_available() {
    let o = Offer::create(CreateOfferParams {
        title: "Backend intern".to_string(),
        link: "https://jobs.example/2".to_string(),
        city: "Madrid".to_string(),
        domain: "tech".to_string(),
        salary_bits: f64::to_bits(1200.0),
        start_date: "2025-10-01".to_string(),
        end_date: "2026-04-01".to_string(),
    });
    assert!(o.available);
    assert_eq!(o.id.len(), 36);
    assert_eq!(o.id.matches('-').count(), 4);
    assert_eq!(o.city, "Madrid");
    assert_eq!(f64::from_bits(o.salary_bits), 1200.0);
}

#[test]
fn withdrawn_offers_are_not_found() {
    assert_eq!(visible_offer(Ok(Some(offer("a", true)))).map(|o| o.id), Ok("a".to_string()));
    assert_eq!(visible_offer(Ok(Some(offer("a", false)))).map(|o| o.id), Err(OfferError::NotFound));
    assert_eq!(visible_offer(Ok(None)).map(|o| o.id), Err(OfferError::NotFound));
    assert_eq!(
        visible_offer(Err(OfferError::DatabaseError("down".to_string()))).map(|o| o.id),
        Err(OfferError::DatabaseError("down".to_string()))
    );
}

#[test]
fn listings_keep_available_offers_in_order() {
    let listed = vec![offer("a", true), offer("b", false), offer("c", true), offer("d", false)];
    let kept = available_offers(Ok(listed)).map(|v| v.into_iter().map(|o| o.id).collect::<Vec<_>>());
    assert_eq!(kept, Ok(vec!["a".to_string(), "c".to_string()]));
    let none = available_offers(Ok(vec![])).map(|v| v.len());
    assert_eq!(none, Ok(0));
    let failed = available_offers(Err(OfferError::DatabaseError("x".to_string()))).map(|v| v.len());
    assert_eq!(failed, Err(OfferError::DatabaseError("x".to_string())));
}

#[test]
fn listing_prefers_domain_then_city() {
    assert_eq!(
        listing(ListParams { domain: Some("law".to_string()), city: Some("Rome".to_string()) }),
        Ok(Listing::ByDomain("law".to_string()))
    );
    assert_eq!(listing(ListParams { domain: None, city: Some("Rome".to_string()) }), Ok(Listing::ByCity("Rome".to_string())));
    assert!(matches!(listing(ListParams { domain: None, city: None }), Err(OfferError::InvalidData(_))));
}

#[test]
fn updates_replace_given_fields_only() {
    let mut p = no_change();
    p.title = Some("Senior intern".to_string());
    p.available = Some(false);
    p.salary_bits = Some(f64::to_bits(1700.0));
    let u = offer("a", true).updated(p);
    assert_eq!(u.id, "a");
    assert_eq!(u.title, "Senior intern");
    assert!(!u.available);
    assert_eq!(f64::from_bits(u.salary_bits), 1700.0);
    assert_eq!(u.city, "Berlin");
    assert_eq!(u.end_date, "2026-03-01");
    assert_eq!(update_target(Ok(None), no_change()).map(|o| o.id), Err(OfferError::NotFound));
    assert_eq!(update_target(Ok(Some(offer("b", false))), no_change()).map(|o| o.available), Ok(false));
}
