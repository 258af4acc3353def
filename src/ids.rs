use vstd::prelude::*;

verus! {

/// The version field (bits 76 to 79) of a UUID.
pub open spec fn uuid_version(v: u128) -> u128 {
    (v >> 76u128) & 0xfu128
}

/// Relies on uuid::Uuid::new_v4 (and `as_u128`): a random UUID whose
/// version field is 4.
#[verifier::external_body]
pub(crate) fn random_uuid() -> (r: u128)
    ensures
        uuid_version(r) == 4,
{
    uuid::Uuid::new_v4().as_u128()
}

/// The value of the UUID that `uuid::Uuid::parse_str` reads from a text, if any.
pub uninterp spec fn parsed_uuid(s: Seq<char>) -> Option<u128>;

/// Relies on uuid::Uuid::parse_str (and `as_u128`): reads a UUID in any of
/// its textual forms.
#[verifier::external_body]
pub(crate) fn parse_uuid(s: &str) -> (r: Option<u128>)
    ensures
        r == parsed_uuid(s@),
{
    match uuid::Uuid::parse_str(s) {
        Ok(u) => Some(u.as_u128()),
        Err(_) => None,
    }
}

/// The hyphenated text of a UUID, as `uuid::Uuid`'s `Display` writes it.
pub uninterp spec fn uuid_hyphenated(v: u128) -> Seq<char>;

/// Relies on uuid::Uuid::from_u128 and the `Display` of `Uuid`: the
/// hyphenated form, 36 characters long.
#[verifier::external_body]
pub(crate) fn uuid_text(v: u128) -> (r: String)
    ensures
        r@ == uuid_hyphenated(v),
        r@.len() == 36,
{
    uuid::Uuid::from_u128(v).to_string()
}

} // verus!
