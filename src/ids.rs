use vstd::prelude::*;

verus! {

/// What `uuid::Uuid::parse_str` yields for a text, as the identifier's 128 bits.
pub uninterp spec fn uuid_parsed_of(s: Seq<char>) -> Option<u128>;

/// The hyphenated lower-case text that `uuid::Uuid`'s `Display` gives for an identifier.
pub uninterp spec fn uuid_text_of(id: u128) -> Seq<char>;

/// Relies on `uuid::Uuid::new_v4`: a fresh random identifier, as its 128 bits.
/// Nothing is known of the value.
#[verifier::external_body]
pub(crate) fn new_uuid() -> (r: u128) {
    uuid::Uuid::new_v4().as_u128()
}

/// Relies on `uuid::Uuid`'s `Display`: the hyphenated form, 36 characters long.
#[verifier::external_body]
pub(crate) fn uuid_text(id: u128) -> (r: String)
    ensures
        r@ == uuid_text_of(id),
        r@.len() == 36,
{
    uuid::Uuid::from_u128(id).to_string()
}

/// Relies on `uuid::Uuid::parse_str`: the identifier written in `s`, if `s` is one.
#[verifier::external_body]
pub(crate) fn parse_uuid(s: &str) -> (r: Option<u128>)
    ensures
        r == uuid_parsed_of(s@),
{
    uuid::Uuid::parse_str(s).ok().map(|u| u.as_u128())
}

} // verus!
