//! The calls this library makes into outside crates: the clock (`chrono`)
//! and random identifiers (`uuid`). Their contracts are trusted; each states
//! only what holds of every outcome.

use vstd::prelude::*;
use crate::models::Instante;

verus! {

/// Whether `c` is a lowercase hexadecimal digit.
pub open spec fn hex_minusculo(c: char) -> bool {
    ('0' <= c && c <= '9') || ('a' <= c && c <= 'f')
}

/// Whether `s` is the hyphenated lowercase text of a version-4 UUID, as in
/// `67e55044-10b1-426f-9247-bb680e5fe0c8`: 36 characters, hyphens at
/// positions 8, 13, 18 and 23, hexadecimal digits elsewhere, the version
/// digit `4` at position 14 and a variant digit among `8`, `9`, `a`, `b`
/// at position 19.
pub open spec fn eh_uuid_v4(s: Seq<char>) -> bool {
    &&& s.len() == 36
    &&& forall|i: int|
        0 <= i < 36 ==> if i == 8 || i == 13 || i == 18 || i == 23 {
            #[trigger] s[i] == '-'
        } else {
            hex_minusculo(s[i])
        }
    &&& s[14] == '4'
    &&& (s[19] == '8' || s[19] == '9' || s[19] == 'a' || s[19] == 'b')
}

/// The current UTC time, from `chrono::Utc::now`, read back as
/// `DateTime::timestamp` and `DateTime::timestamp_subsec_nanos`.
/// `Utc::now` builds its value from the time since the Unix epoch, so the
/// seconds are not negative and the nanoseconds stay below one second. Which
/// instant comes back depends on the clock and is not stated. `Utc::now`
/// panics when the system clock is set before 1970; nothing here can rule
/// that out.
#[verifier::external_body]
pub(crate) fn agora() -> (r: Instante)
    ensures
        r.segundos >= 0,
        r.nanos < 1_000_000_000,
{
    let t = chrono::Utc::now();
    Instante { segundos: t.timestamp(), nanos: t.timestamp_subsec_nanos() }
}

/// A fresh random identifier: `uuid::Uuid::new_v4`, written out by its
/// `Display` impl (hyphenated, lowercase). The source sets the version and
/// variant bits and formats 16 bytes as 36 characters; which identifier comes
/// back is random and not stated. The crate panics when the operating
/// system's random source fails; nothing here can rule that out.
#[verifier::external_body]
pub(crate) fn novo_id() -> (r: String)
    ensures
        eh_uuid_v4(r@),
{
    uuid::Uuid::new_v4().to_string()
}

} // verus!
