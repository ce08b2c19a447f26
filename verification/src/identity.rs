//! Fresh instance identifiers, drawn through the `uuid` crate.
use vstd::prelude::*;

verus! {

/// Whether `c` is a decimal digit or one of the letters `a` to `f`.
pub open spec fn is_lower_hex(c: char) -> bool {
    48 <= c as u32 <= 57 || 97 <= c as u32 <= 102
}

/// Whether position `i` of a hyphenated identifier holds a hyphen.
pub open spec fn is_hyphen_position(i: int) -> bool {
    i == 8 || i == 13 || i == 18 || i == 23
}

/// Whether `s` is a random (version 4) UUID in hyphenated lower-case form:
/// 36 characters, hyphens after 8, 12, 16 and 20 hexadecimal digits, the
/// version digit `4`, and a variant digit of `8`, `9`, `a` or `b`.
pub open spec fn is_random_uuid(s: Seq<char>) -> bool {
    &&& s.len() == 36
    &&& forall|i: int|
        0 <= i < 36 ==> if is_hyphen_position(i) {
            #[trigger] s[i] == '-'
        } else {
            is_lower_hex(s[i])
        }
    &&& s[14] == '4'
    &&& (s[19] == '8' || s[19] == '9' || s[19] == 'a' || s[19] == 'b')
}

/// Draws an identifier with `uuid::Uuid::new_v4()` and writes it with its
/// `Display` form.
///
/// Trusted: the crate sets the version and variant bits of 128 random bits and
/// prints them hyphenated in lower case.  Which identifier is drawn is not
/// stated.
#[verifier::external_body]
pub(crate) fn fresh_identifier() -> (id: String)
    ensures
        is_random_uuid(id@),
{
    uuid::Uuid::new_v4().to_string()
}

} // verus!
