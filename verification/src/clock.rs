//! The wall clock and fresh random identifiers, as the relay reads them.
use vstd::prelude::*;
use vstd::string::*;

use crate::principals::{hex_lower, lemma_hex_lower_shape, os_random_bytes};

verus! {

/// The current UTC time formatted as RFC 3339, read with
/// `time::OffsetDateTime::now_utc` and `format(&Rfc3339)`; `None` when
/// formatting fails. Depends on when it is called, so nothing more is stated.
#[verifier::external_body]
fn format_now_rfc3339() -> (stamp: Option<String>) {
    time::OffsetDateTime::now_utc().format(&time::format_description::well_known::Rfc3339).ok()
}

/// The stamp used when the current time cannot be formatted: the Unix epoch.
pub open spec fn epoch_stamp() -> Seq<char> {
    "1970-01-01T00:00:00Z"@
}

/// A timestamp from the formatted current time: the formatted text, or the
/// Unix epoch's stamp when formatting failed.
pub fn stamp_or_epoch(formatted: Option<String>) -> (stamp: String)
    ensures
        formatted is Some ==> stamp@ == formatted.unwrap()@,
        formatted is None ==> stamp@ == epoch_stamp(),
{
    match formatted {
        Some(stamp) => stamp,
        None => {
            let epoch = String::from_str("1970-01-01T00:00:00Z");
            proof {
                reveal_strlit("1970-01-01T00:00:00Z");
            }
            epoch
        },
    }
}

/// The current UTC time as RFC 3339, or the Unix epoch's stamp when the time
/// cannot be formatted. Which time it reads depends on when it is called, so
/// nothing is stated of the stamp.
pub fn now_rfc3339() -> (stamp: String) {
    stamp_or_epoch(format_now_rfc3339())
}

/// The bytes of the version-4 UUID built from 16 random bytes: byte 6 carries
/// the version (4) in its high nibble, byte 8 the RFC 4122 variant in its two
/// high bits.
pub open spec fn uuid_v4_bytes(bytes: Seq<u8>) -> Seq<u8> {
    bytes.update(6, (bytes[6] & 0x0f) | 0x40).update(8, (bytes[8] & 0x3f) | 0x80)
}

/// The hyphenated text of the version-4 UUID built from 16 random bytes:
/// lowercase hexadecimal in groups of 8, 4, 4, 4 and 12 digits.
pub open spec fn uuid_v4_text(bytes: Seq<u8>) -> Seq<char> {
    let h = hex_lower(uuid_v4_bytes(bytes));
    h.subrange(0, 8) + seq!['-'] + h.subrange(8, 12) + seq!['-'] + h.subrange(12, 16) + seq!['-']
        + h.subrange(16, 20) + seq!['-'] + h.subrange(20, 32)
}

/// Builds the version-4 UUID of 16 random bytes with
/// `uuid::Builder::from_random_bytes` (which sets the version and variant
/// bits) and formats it hyphenated with `to_string`.
#[verifier::external_body]
fn format_uuid_v4(bytes: &[u8]) -> (id: String)
    requires
        bytes@.len() == 16,
    ensures
        id@ == uuid_v4_text(bytes@),
{
    let mut raw = [0u8; 16];
    raw.copy_from_slice(bytes);
    uuid::Builder::from_random_bytes(raw).into_uuid().to_string()
}

/// A fresh random identifier: a version-4 UUID drawn from the operating
/// system's random source, or `None` when that source fails.
pub(crate) fn new_request_id() -> (id: Option<String>)
    ensures
        id is Some ==> exists|bytes: Seq<u8>|
            bytes.len() == 16 && id.unwrap()@ == #[trigger] uuid_v4_text(bytes),
        id is Some ==> id.unwrap()@.len() == 36,
{
    match os_random_bytes(16) {
        None => None,
        Some(bytes) => {
            let id = format_uuid_v4(bytes.as_slice());
            assert(bytes@.len() == 16);
            proof {
                lemma_hex_lower_shape(uuid_v4_bytes(bytes@));
            }
            Some(id)
        },
    }
}

} // verus!
