//! Random identifiers.

use vstd::prelude::*;

verus! {

/// The lower-case hexadecimal digits.
pub open spec fn is_lower_hex(c: char) -> bool {
    '0' <= c <= '9' || 'a' <= c <= 'f'
}

/// The notation of a random UUID: 32 lower-case hexadecimal digits in groups
/// of 8, 4, 4, 4 and 12 with hyphens between them, where the third group
/// starts with the version, 4, and the fourth with the variant.
pub open spec fn is_random_uuid(s: Seq<char>) -> bool {
    &&& s.len() == 36
    &&& forall|i: int|
        0 <= i < 36 ==> if i == 8 || i == 13 || i == 18 || i == 23 {
            #[trigger] s[i] == '-'
        } else if i == 14 {
            s[i] == '4'
        } else if i == 19 {
            s[i] == '8' || s[i] == '9' || s[i] == 'a' || s[i] == 'b'
        } else {
            is_lower_hex(s[i])
        }
}

/// `uuid::Uuid::new_v4`, written by the `Display` of `uuid::Uuid`: a random
/// UUID of version 4 in lower-case hyphenated notation. Which one it is
/// depends on chance. (`new_v4` panics where the operating system gives no
/// random bytes.)
#[verifier::external_body]
pub(crate) fn random_uuid() -> (r: String)
    ensures
        is_random_uuid(r@),
{
    uuid::Uuid::new_v4().to_string()
}

} // verus!
