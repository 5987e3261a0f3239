//! Fresh identifiers: login tokens and connection identifiers.

use vstd::prelude::*;

verus! {

/// A digit of lower-case hexadecimal notation.
pub open spec fn is_hex_digit(c: char) -> bool {
    ('0' <= c && c <= '9') || ('a' <= c && c <= 'f')
}

/// The shape of every identifier that is issued: 32 lower-case hexadecimal
/// digits.
pub open spec fn is_identifier(id: Seq<char>) -> bool {
    &&& id.len() == 32
    &&& forall|i: int| 0 <= i < id.len() ==> is_hex_digit(#[trigger] id[i])
}

/// Trusted: `uuid::Uuid::new_v4`, written out through `Uuid::simple`, whose
/// text is the 16 bytes of the identifier as 32 lower-case hexadecimal digits
/// without hyphens. The bytes are random, so only the shape is stated: two
/// calls need not agree, and nothing is claimed about how likely that is.
/// The call panics where the operating system hands out no random bytes.
#[verifier::external_body]
pub(crate) fn fresh_identifier() -> (id: String)
    ensures
        is_identifier(id@),
{
    uuid::Uuid::new_v4().simple().to_string()
}

} // verus!
