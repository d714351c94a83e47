use vstd::prelude::*;

verus! {

/// The 128 bits of the id that the uuid crate reads from `text`, or nothing
/// where it does not take `text` for an id.
pub uninterp spec fn uuid_value(text: Seq<char>) -> Option<u128>;

/// The text in which the uuid crate writes the id of the bits `id`: lower
/// case, in five groups.
pub uninterp spec fn uuid_text(id: u128) -> Seq<char>;

/// The bits that every id drawn at random has in common: version 4 in the
/// variant of RFC 4122.
pub open spec fn is_random_uuid(id: u128) -> bool {
    id & 0x0000_0000_0000_f000_c000_0000_0000_0000u128
        == 0x0000_0000_0000_4000_8000_0000_0000_0000u128
}

/// Calls `Uuid::parse_str` and hands out the bits with `Uuid::as_u128`. The
/// result is a function of the text alone, known under the name `uuid_value`.
#[verifier::external_body]
pub(crate) fn uuid_of(text: &str) -> (r: Option<u128>)
    ensures
        r == uuid_value(text@),
{
    match uuid::Uuid::parse_str(text) {
        Ok(id) => Some(id.as_u128()),
        Err(_) => None,
    }
}

/// Calls `Uuid::from_u128` and writes the id as the uuid crate's `Display`
/// does. The result is a function of the bits alone, known under the name
/// `uuid_text`.
#[verifier::external_body]
pub(crate) fn uuid_to_text(id: u128) -> (r: String)
    ensures
        r@ == uuid_text(id),
{
    uuid::Uuid::from_u128(id).to_string()
}

/// Calls `Uuid::new_v4` and hands out the bits with `Uuid::as_u128`. Which
/// id comes back is left to chance; its version and variant are fixed.
#[verifier::external_body]
pub(crate) fn random_uuid() -> (r: u128)
    ensures
        is_random_uuid(r),
{
    uuid::Uuid::new_v4().as_u128()
}

} // verus!
