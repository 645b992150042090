//! Correlation identifiers: random 128-bit values in the UUID version 4 layout.
use vstd::prelude::*;

verus! {

/// The version nibble of `v` is 4 and its variant bits are `10`.
pub open spec fn is_v4(v: u128) -> bool {
    &&& (v >> 76u128) & 0xfu128 == 4u128
    &&& (v >> 62u128) & 0x3u128 == 2u128
}

/// The lowercase hexadecimal digit for `n` in `0..16`.
pub open spec fn hex_char(n: int) -> char {
    seq!['0', '1', '2', '3', '4', '5', '6', '7', '8', '9', 'a', 'b', 'c', 'd', 'e', 'f'][n]
}

/// The `d`-th of the 32 hexadecimal digits of `v`, most significant first.
pub open spec fn nibble(v: u128, d: int) -> int {
    ((v >> ((124 - 4 * d) as u128)) & 0xfu128) as int
}

/// Positions of the hyphens in the 36-character text form.
pub open spec fn is_hyphen_at(p: int) -> bool {
    p == 8 || p == 13 || p == 18 || p == 23
}

/// Which hexadecimal digit stands at text position `p` (for a non-hyphen `p`).
pub open spec fn digit_at(p: int) -> int {
    if p < 8 {
        p
    } else if p < 13 {
        p - 1
    } else if p < 18 {
        p - 2
    } else if p < 23 {
        p - 3
    } else {
        p - 4
    }
}

/// The hyphenated lowercase text of `v`: `xxxxxxxx-xxxx-xxxx-xxxx-xxxxxxxxxxxx`.
pub open spec fn uuid_text(v: u128) -> Seq<char> {
    Seq::new(36, |p: int| if is_hyphen_at(p) { '-' } else { hex_char(nibble(v, digit_at(p))) })
}

/// Relies on `uuid::Uuid::new_v4` (read back with `as_u128`): random bits
/// with the version nibble set to 4 and the variant bits set to `10`.
#[verifier::external_body]
fn random_v4() -> (r: u128)
    ensures
        is_v4(r),
{
    uuid::Uuid::new_v4().as_u128()
}

/// Relies on `uuid::Uuid::from_u128` and its `Display`: the big-endian value
/// in lowercase hyphenated form.
#[verifier::external_body]
fn hyphenated_text(v: u128) -> (r: String)
    ensures
        r@ == uuid_text(v),
{
    uuid::Uuid::from_u128(v).to_string()
}

/// A request's correlation identifier, as its 128-bit value.
#[derive(Clone, Copy, Debug, PartialEq, Eq, Structural)]
pub struct RequestId(pub u128);

impl RequestId {
    /// A fresh random identifier in the version 4 layout.
    pub fn generate() -> (r: RequestId)
        ensures
            is_v4(r.0),
    {
        RequestId(random_v4())
    }

    /// The 128-bit value.
    pub fn value(&self) -> (r: u128)
        ensures
            r == self.0,
    {
        self.0
    }

    /// The identifier as transported: hyphenated lowercase hexadecimal.
    pub fn to_text(&self) -> (r: String)
        ensures
            r@ == uuid_text(self.0),
            r@.len() == 36,
    {
        hyphenated_text(self.0)
    }
}

impl Default for RequestId {
    fn default() -> (r: RequestId)
        ensures
            is_v4(r.0),
    {
        RequestId::generate()
    }
}

} // verus!
