//! Identifiers of generate requests.

use vstd::prelude::*;

use crate::text::join;

verus! {

/// A lower-case hexadecimal digit.
pub open spec fn lower_hex(c: char) -> bool {
    ('0' <= c && c <= '9') || ('a' <= c && c <= 'f')
}

/// The hyphenated lower-case text of a version 7 UUID: groups of 8, 4, 4, 4 and 12
/// hexadecimal digits, the third of which starts with the version and the fourth
/// with one of the four digits of the RFC 9562 variant.
pub open spec fn uuid_v7_text(s: Seq<char>) -> bool {
    &&& s.len() == 36
    &&& forall|i: int|
        0 <= i < 36 ==> if i == 8 || i == 13 || i == 18 || i == 23 {
            #[trigger] s[i] == '-'
        } else {
            lower_hex(s[i])
        }
    &&& s[14] == '7'
    &&& (s[19] == '8' || s[19] == '9' || s[19] == 'a' || s[19] == 'b')
}

/// `uuid::Uuid::now_v7`, printed. Claims only the shape that every version 7 UUID
/// has in text. Which one comes back rests on the clock and on random bits, so no
/// more is said of it. The call panics where the system clock stands before 1970 or
/// the system has no random bytes to give.
#[verifier::external_body]
fn now_v7() -> (s: String)
    ensures
        uuid_v7_text(s@),
{
    uuid::Uuid::now_v7().to_string()
}

/// `s` is a text that the UUID generator can return.
pub closed spec fn drawn(s: Seq<char>) -> bool {
    exists|t: String| #[trigger] call_ensures(now_v7, (), t) && t@ == s
}

/// Draws the UUID of a generate request.
pub fn draw_uuid() -> (uuid: String)
    ensures
        uuid_v7_text(uuid@),
        drawn(uuid@),
{
    now_v7()
}

/// The identifier of the generate request that carries `uuid`.
pub open spec fn request_id(uuid: Seq<char>) -> Seq<char> {
    "prime-"@ + uuid
}

/// The identifier of the generate request that carries `uuid`.
pub fn prime_request_id(uuid: &str) -> (id: String)
    ensures
        id@ == request_id(uuid@),
        id@ == "prime-"@ + uuid@,
{
    join("prime-", uuid)
}

} // verus!
