//! Fresh identifiers for exports and sessions.

use vstd::prelude::*;

verus! {

/// Whether `c` is a decimal digit or one of `a` to `f`.
pub open spec fn is_lower_hex(c: char) -> bool {
    ('0' <= c && c <= '9') || ('a' <= c && c <= 'f')
}

/// The shape of an identifier: thirty-six characters, a hyphen at each of
/// the positions 8, 13, 18 and 23, and lower-case hexadecimal digits
/// everywhere else.
pub open spec fn is_identifier(s: Seq<char>) -> bool {
    &&& s.len() == 36
    &&& forall|i: int|
        0 <= i < 36 ==> if i == 8 || i == 13 || i == 18 || i == 23 {
            #[trigger] s[i] == '-'
        } else {
            is_lower_hex(s[i])
        }
}

/// Calls `uuid::Uuid::new_v4` and renders the result with `to_string`.
///
/// Trusted: the text is the hyphenated lower-case form of a UUID, which
/// `is_identifier` describes. Which identifier comes back is left open: it
/// is drawn at random on every call. The call panics if the operating
/// system cannot supply random bytes.
#[verifier::external_body]
pub(crate) fn fresh_identifier() -> (id: String)
    ensures
        is_identifier(id@),
{
    uuid::Uuid::new_v4().to_string()
}

} // verus!
