//! Names that are drawn by chance.
use vstd::prelude::*;

verus! {

/// A character that needs no escape in a URL.
pub open spec fn url_safe(c: char) -> bool {
    c == '_' || c == '-' || '0' <= c <= '9' || 'a' <= c <= 'z' || 'A' <= c <= 'Z'
}

/// `nanoid::format` with the crate's own source of chance and its URL-safe
/// alphabet: `size` characters of that alphabet. Which ones is left to chance.
/// A size of zero would never return, and a size whose eightfold does not fit
/// would overflow.
#[verifier::external_body]
pub(crate) fn nanoid(size: usize) -> (r: String)
    requires
        0 < size <= 0x1000_0000,
    ensures
        r@.len() == size,
        forall|i: int| 0 <= i < r@.len() ==> url_safe(#[trigger] r@[i]),
{
    nanoid::format(nanoid::rngs::default, &nanoid::alphabet::SAFE, size)
}

/// A lower-case hexadecimal digit.
pub open spec fn lower_hex(c: char) -> bool {
    '0' <= c <= '9' || 'a' <= c <= 'f'
}

/// The text of a random UUID: 36 characters, lower-case hexadecimal digits
/// with hyphens in four places, of version 4 and the variant of RFC 9562.
pub open spec fn is_uuid(s: Seq<char>) -> bool {
    &&& s.len() == 36
    &&& forall|i: int|
        0 <= i < 36 ==> if i == 8 || i == 13 || i == 18 || i == 23 {
            #[trigger] s[i] == '-'
        } else {
            lower_hex(s[i])
        }
    &&& s[14] == '4'
    &&& s[19] == '8' || s[19] == '9' || s[19] == 'a' || s[19] == 'b'
}

/// `uuid::Uuid::new_v4`, as text: a random UUID. Which one is left to chance.
#[verifier::external_body]
pub(crate) fn uuid_v4() -> (r: String)
    ensures
        is_uuid(r@),
{
    uuid::Uuid::new_v4().to_string()
}

} // verus!
