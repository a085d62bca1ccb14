use vstd::prelude::*;

verus! {

/// The identifier that the textual form `s` denotes, if `s` is a valid
/// identifier text (simple, hyphenated, braced or URN form).
pub uninterp spec fn parsed_id(s: Seq<char>) -> Option<u128>;

/// The version nibble and variant bits that every random identifier carries.
pub open spec fn is_random_id(id: u128) -> bool {
    id & 0xF000_C000_0000_0000_0000u128 == 0x4000_8000_0000_0000_0000u128
}

/// Relies on uuid's `Uuid::new_v4`, read back with `Uuid::as_u128`: a random
/// identifier with the version 4 and RFC 4122 variant bits set. Nothing else
/// is known of it.
#[verifier::external_body]
pub(crate) fn random_id() -> (r: u128)
    ensures
        is_random_id(r),
{
    uuid::Uuid::new_v4().as_u128()
}

/// Relies on uuid's `Uuid::parse_str`, read back with `Uuid::as_u128`: the
/// result depends on the text alone, and an empty text is refused.
#[verifier::external_body]
pub(crate) fn parse_id(s: &str) -> (r: Option<u128>)
    ensures
        r == parsed_id(s@),
        s@.len() == 0 ==> r is None,
{
    match uuid::Uuid::parse_str(s) {
        Ok(u) => Some(u.as_u128()),
        Err(_) => None,
    }
}

} // verus!
