//! Identifiers of books, loans and users.
//!
//! Each identifier is a UUID, held as the 128-bit number that its sixteen
//! bytes spell in big-endian order.
use vstd::prelude::*;

verus! {

/// Whether `value` carries the version and variant marks of a random
/// (version 4) UUID: the version nibble is 4 and the two variant bits are `10`.
pub open spec fn is_random_uuid(value: u128) -> bool {
    value & 0x0000_0000_0000_F000_C000_0000_0000_0000u128
        == 0x0000_0000_0000_4000_8000_0000_0000_0000u128
}

/// Draws a fresh random UUID.
///
/// Calls `uuid::Uuid::new_v4` and `uuid::Uuid::as_u128`. The bits are random,
/// so the contract only states what holds of every outcome: `new_v4` forces
/// the version nibble to 4 and the variant bits to `10` before it returns.
/// (Where the operating system cannot supply random bytes, `new_v4` does not
/// return.)
#[verifier::external_body]
fn random_uuid() -> (value: u128)
    ensures
        is_random_uuid(value),
{
    uuid::Uuid::new_v4().as_u128()
}

/// Identifies a book of the catalogue.
#[derive(Clone, Copy, Debug, PartialEq, Eq, Structural, Hash)]
pub struct BookId(pub u128);

/// Identifies one loan of a book, from checkout to return.
#[derive(Clone, Copy, Debug, PartialEq, Eq, Structural, Hash)]
pub struct CheckoutId(pub u128);

/// Identifies a user.
#[derive(Clone, Copy, Debug, PartialEq, Eq, Structural, Hash)]
pub struct UserId(pub u128);

impl BookId {
    /// A fresh random identifier.
    pub fn new() -> (id: BookId)
        ensures
            is_random_uuid(id.0),
    {
        BookId(random_uuid())
    }
}

impl CheckoutId {
    /// A fresh random identifier.
    pub fn new() -> (id: CheckoutId)
        ensures
            is_random_uuid(id.0),
    {
        CheckoutId(random_uuid())
    }
}

impl UserId {
    /// A fresh random identifier.
    pub fn new() -> (id: UserId)
        ensures
            is_random_uuid(id.0),
    {
        UserId(random_uuid())
    }
}

} // verus!
