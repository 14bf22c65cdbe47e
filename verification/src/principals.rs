//! The relay-level principal store and Hello credential verification.
//!
//! A record binds a principal id to the SHA-256 of its pre-shared key; the raw
//! key is never stored. The store holds at most one record per credential hash.
//! Loading and persisting the store file is the host's work; this module owns
//! what the store holds and what a Hello credential is worth against it.
use vstd::prelude::*;
use vstd::string::*;
use vstd::utf8::*;

use rand::TryRngCore;
use sha2::Digest;
use subtle::ConstantTimeEq;

use crate::errors::{
    error_view, one_detail, relay_error, text_detail, text_field, two_details, DetailView,
    RelayError, RelayErrorView,
};
use crate::identity::{classify_principal_id, spec_classify, PrincipalType};
use crate::text::{push_char, str_eq};

verus! {

/// Bytes in a generated pre-shared key.
pub const PSK_BYTE_LENGTH: usize = 32;

/// The SHA-256 digest of a byte string.
pub uninterp spec fn sha256(data: Seq<u8>) -> Seq<u8>;

/// The instant an RFC 3339 timestamp names, in nanoseconds since the Unix
/// epoch, or `None` when the text does not parse.
pub uninterp spec fn rfc3339_unix_nanos(text: Seq<char>) -> Option<i128>;

/// Standard-alphabet base64 without padding.
pub uninterp spec fn base64_standard_no_pad(data: Seq<u8>) -> Seq<char>;

/// Computes `sha2::Sha256::digest`, whose output is always 32 bytes.
#[verifier::external_body]
fn sha256_digest(data: &[u8]) -> (digest: Vec<u8>)
    ensures
        digest@ == sha256(data@),
        digest@.len() == 32,
{
    sha2::Sha256::digest(data).to_vec()
}

/// Compares two byte strings with `subtle::ConstantTimeEq::ct_eq`, which is
/// true exactly when they have the same length and the same bytes (it
/// short-circuits only on the lengths).
#[verifier::external_body]
fn bytes_equal_constant_time(a: &[u8], b: &[u8]) -> (equal: bool)
    ensures
        equal == (a@ == b@),
{
    bool::from(a.ct_eq(b))
}

/// Parses an RFC 3339 timestamp with `time::OffsetDateTime::parse` and returns
/// the instant as `unix_timestamp_nanos`.
#[verifier::external_body]
fn parse_rfc3339_nanos(text: &str) -> (instant: Option<i128>)
    ensures
        instant == rfc3339_unix_nanos(text@),
{
    match time::OffsetDateTime::parse(text, &time::format_description::well_known::Rfc3339) {
        Ok(parsed) => Some(parsed.unix_timestamp_nanos()),
        Err(_) => None,
    }
}

/// Fills `len` bytes from the operating system's CSPRNG (`rand::rngs::OsRng`
/// through `try_fill_bytes`); `None` when the OS source fails. Nothing is
/// stated of the bytes themselves.
#[verifier::external_body]
pub(crate) fn os_random_bytes(len: usize) -> (bytes: Option<Vec<u8>>)
    ensures
        bytes is Some ==> bytes.unwrap()@.len() == len,
{
    let mut buffer = vec![0u8; len];
    match rand::rngs::OsRng.try_fill_bytes(&mut buffer) {
        Ok(()) => Some(buffer),
        Err(_) => None,
    }
}

/// Encodes bytes with base64's `STANDARD_NO_PAD` engine.
#[verifier::external_body]
fn encode_base64_no_pad(data: &[u8]) -> (text: String)
    ensures
        text@ == base64_standard_no_pad(data@),
{
    base64::Engine::encode(&base64::engine::general_purpose::STANDARD_NO_PAD, data)
}

/// Generates a fresh pre-shared key: 32 bytes of OS CSPRNG output encoded as
/// unpadded standard base64. `None` when the OS random source fails.
pub fn generate_psk() -> (psk: Option<String>)
    ensures
        psk is Some ==> exists|bytes: Seq<u8>|
            bytes.len() == PSK_BYTE_LENGTH && psk.unwrap()@ == #[trigger] base64_standard_no_pad(
                bytes,
            ),
{
    match os_random_bytes(PSK_BYTE_LENGTH) {
        None => None,
        Some(bytes) => {
            let psk = encode_base64_no_pad(bytes.as_slice());
            assert(bytes@.len() == PSK_BYTE_LENGTH);
            Some(psk)
        },
    }
}

/// The lowercase hexadecimal digit for a nibble.
pub open spec fn nibble_char(n: int) -> char {
    if n < 10 {
        (48 + n) as char
    } else {
        (87 + n) as char
    }
}

/// Lowercase hexadecimal, two digits per byte.
pub open spec fn hex_lower(bytes: Seq<u8>) -> Seq<char>
    decreases bytes.len(),
{
    if bytes.len() == 0 {
        seq![]
    } else {
        hex_lower(bytes.drop_last()) + seq![
            nibble_char(bytes.last() as int / 16),
            nibble_char(bytes.last() as int % 16),
        ]
    }
}

/// A lowercase hexadecimal digit: `0`-`9` or `a`-`f`.
pub open spec fn is_lower_hex_digit(c: char) -> bool {
    ('0' <= c && c <= '9') || ('a' <= c && c <= 'f')
}

/// Lowercase hexadecimal has two digits per byte, each `0`-`9` or `a`-`f`.
pub proof fn lemma_hex_lower_shape(bytes: Seq<u8>)
    ensures
        hex_lower(bytes).len() == 2 * bytes.len(),
        forall|k: int| 0 <= k < hex_lower(bytes).len() ==> is_lower_hex_digit(
            #[trigger] hex_lower(bytes)[k],
        ),
    decreases bytes.len(),
{
    if bytes.len() > 0 {
        lemma_hex_lower_shape(bytes.drop_last());
        let hi = bytes.last() as int / 16;
        let lo = bytes.last() as int % 16;
        assert(0 <= hi < 16 && 0 <= lo < 16);
        let prefix = hex_lower(bytes.drop_last());
        let tail = seq![nibble_char(hi), nibble_char(lo)];
        assert(hex_lower(bytes) == prefix + tail);
        assert forall|k: int| 0 <= k < hex_lower(bytes).len() implies is_lower_hex_digit(
            #[trigger] hex_lower(bytes)[k],
        ) by {
            if k < prefix.len() {
                assert(hex_lower(bytes)[k] == prefix[k]);
            } else {
                assert(hex_lower(bytes)[k] == tail[k - prefix.len()]);
            }
        }
    }
}

/// The credential hash a token is stored under.
pub open spec fn token_hash(token: Seq<char>) -> Seq<char> {
    hex_lower(sha256(encode_utf8(token)))
}

fn nibble(n: u8) -> (digit: char)
    requires
        n < 16,
    ensures
        digit == nibble_char(n as int),
{
    if n < 10 {
        (n + 48) as char
    } else {
        (n + 87) as char
    }
}

/// Returns the lowercase hex SHA-256 digest of `token`: 64 characters, each
/// `0`-`9` or `a`-`f`, the same for the same token.
pub fn hash_token_sha256(token: &str) -> (hash: String)
    ensures
        hash@ == token_hash(token@),
        hash@.len() == 64,
        forall|k: int| 0 <= k < hash@.len() ==> is_lower_hex_digit(#[trigger] hash@[k]),
{
    let digest = sha256_digest(token.as_bytes());
    let mut out = String::new();
    let mut i: usize = 0;
    while i < digest.len()
        invariant
            i <= digest@.len(),
            digest@ == sha256(encode_utf8(token@)),
            out@ == hex_lower(digest@.subrange(0, i as int)),
        decreases digest@.len() - i,
    {
        let byte = digest[i];
        push_char(&mut out, nibble(byte / 16));
        push_char(&mut out, nibble(byte % 16));
        assert(digest@.subrange(0, i + 1).drop_last() =~= digest@.subrange(0, i as int));
        i = i + 1;
    }
    assert(digest@.subrange(0, digest@.len() as int) =~= digest@);
    proof {
        lemma_hex_lower_shape(digest@);
    }
    out
}

/// Persisted record for one registered principal.
#[derive(Debug)]
pub struct PrincipalRecord {
    pub principal_id: String,
    pub principal_type: PrincipalType,
    /// Lowercase hex SHA-256 of the raw PSK.
    pub credential_hash: String,
    pub scope: Option<String>,
    pub expires_at: Option<String>,
    pub metadata: Vec<(String, String)>,
}

pub struct PrincipalRecordView {
    pub principal_id: Seq<char>,
    pub principal_type: PrincipalType,
    pub credential_hash: Seq<char>,
    pub scope: Option<Seq<char>>,
    pub expires_at: Option<Seq<char>>,
    pub metadata: Seq<(Seq<char>, Seq<char>)>,
}

pub open spec fn opt_view(value: Option<String>) -> Option<Seq<char>> {
    match value {
        None => None,
        Some(s) => Some(s@),
    }
}

impl View for PrincipalRecord {
    type V = PrincipalRecordView;

    open spec fn view(&self) -> PrincipalRecordView {
        PrincipalRecordView {
            principal_id: self.principal_id@,
            principal_type: self.principal_type,
            credential_hash: self.credential_hash@,
            scope: opt_view(self.scope),
            expires_at: opt_view(self.expires_at),
            metadata: self.metadata@.map_values(|kv: (String, String)| (kv.0@, kv.1@)),
        }
    }
}

/// A record is expired when its `expires_at` is at or before `now`, or is
/// present but unparseable (fail-closed). A record without one never expires.
pub open spec fn spec_expired(expires_at: Option<Seq<char>>, now: i128) -> bool {
    match expires_at {
        None => false,
        Some(raw) => match rfc3339_unix_nanos(raw) {
            Some(at) => at <= now,
            None => true,
        },
    }
}

/// Whether `record` has expired at `now` (nanoseconds since the Unix epoch).
pub fn record_is_expired(record: &PrincipalRecord, now: i128) -> (expired: bool)
    ensures
        expired == spec_expired(record@.expires_at, now),
{
    match &record.expires_at {
        None => false,
        Some(raw) => match parse_rfc3339_nanos(raw.as_str()) {
            Some(at) => at <= now,
            None => true,
        },
    }
}

impl PrincipalRecord {
    /// A copy of this record.
    pub fn copy(&self) -> (copy: Self)
        ensures
            copy@ == self@,
    {
        let mut metadata: Vec<(String, String)> = Vec::new();
        let mut i: usize = 0;
        while i < self.metadata.len()
            invariant
                i <= self.metadata@.len(),
                metadata@.len() == i,
                forall|j: int|
                    0 <= j < i ==> (#[trigger] metadata@[j]).0@ == self.metadata@[j].0@
                        && metadata@[j].1@ == self.metadata@[j].1@,
            decreases self.metadata@.len() - i,
        {
            let (key, value) = &self.metadata[i];
            metadata.push((key.clone(), value.clone()));
            i = i + 1;
        }
        assert(metadata@.map_values(|kv: (String, String)| (kv.0@, kv.1@)) =~= self.metadata@.map_values(
            |kv: (String, String)| (kv.0@, kv.1@),
        ));
        PrincipalRecord {
            principal_id: self.principal_id.clone(),
            principal_type: self.principal_type,
            credential_hash: self.credential_hash.clone(),
            scope: match &self.scope {
                None => None,
                Some(s) => Some(s.clone()),
            },
            expires_at: match &self.expires_at {
                None => None,
                Some(e) => Some(e.clone()),
            },
            metadata,
        }
    }

    /// Whether this record has expired at `now` (nanoseconds since the Unix
    /// epoch).
    pub fn is_expired(&self, now: i128) -> (expired: bool)
        ensures
            expired == spec_expired(self@.expires_at, now),
    {
        record_is_expired(self, now)
    }
}

pub open spec fn unique_hashes(records: Seq<PrincipalRecordView>) -> bool {
    forall|i: int, j: int|
        0 <= i < records.len() && 0 <= j < records.len() && i != j ==> records[i].credential_hash
            != records[j].credential_hash
}

pub open spec fn has_hash(records: Seq<PrincipalRecordView>, hash: Seq<char>) -> bool {
    exists|i: int| 0 <= i < records.len() && records[i].credential_hash == hash
}

/// The index of the record holding `hash` (meaningful when there is one).
pub open spec fn hash_index(records: Seq<PrincipalRecordView>, hash: Seq<char>) -> int {
    choose|i: int| 0 <= i < records.len() && records[i].credential_hash == hash
}

/// The first index at which `principal_id` is registered, or `-1`.
pub open spec fn is_first_id_index(
    records: Seq<PrincipalRecordView>,
    principal_id: Seq<char>,
    i: int,
) -> bool {
    &&& 0 <= i < records.len()
    &&& records[i].principal_id == principal_id
    &&& forall|j: int| 0 <= j < i ==> records[j].principal_id != principal_id
}

pub open spec fn has_id(records: Seq<PrincipalRecordView>, principal_id: Seq<char>) -> bool {
    exists|i: int| 0 <= i < records.len() && records[i].principal_id == principal_id
}

/// The records that survive pruning at `now`, in order.
pub open spec fn spec_unexpired(records: Seq<PrincipalRecordView>, now: i128) -> Seq<
    PrincipalRecordView,
>
    decreases records.len(),
{
    if records.len() == 0 {
        seq![]
    } else {
        let rest = spec_unexpired(records.drop_last(), now);
        if spec_expired(records.last().expires_at, now) {
            rest
        } else {
            rest.push(records.last())
        }
    }
}

/// Relay-level principal store: at most one record per credential hash.
#[derive(Debug)]
pub struct PrincipalStore {
    records: Vec<PrincipalRecord>,
}

impl View for PrincipalStore {
    type V = Seq<PrincipalRecordView>;

    closed spec fn view(&self) -> Seq<PrincipalRecordView> {
        self.records@.map_values(|r: PrincipalRecord| r@)
    }
}

impl PrincipalStore {
    #[verifier::type_invariant]
    closed spec fn hashes_unique(&self) -> bool {
        unique_hashes(self@)
    }

    /// An empty store.
    pub fn new() -> (store: Self)
        ensures
            store@ == Seq::<PrincipalRecordView>::empty(),
    {
        let store = PrincipalStore { records: Vec::new() };
        assert(store@ =~= Seq::<PrincipalRecordView>::empty());
        store
    }

    /// Every loaded record, in store order, without expiry filtering.
    pub fn records(&self) -> (records: &Vec<PrincipalRecord>)
        ensures
            records@.map_values(|r: PrincipalRecord| r@) == self@,
            unique_hashes(self@),
    {
        proof {
            use_type_invariant(self);
        }
        &self.records
    }

    /// Looks up a principal by credential hash, comparing each stored hash in
    /// constant time.
    pub fn find_by_credential_hash(&self, hash_hex: &str) -> (found: Option<&PrincipalRecord>)
        ensures
            found is Some <==> has_hash(self@, hash_hex@),
            found is Some ==> found.unwrap()@ == self@[hash_index(self@, hash_hex@)],
            found is Some ==> found.unwrap()@.credential_hash == hash_hex@,
            unique_hashes(self@),
    {
        proof {
            use_type_invariant(self);
        }
        let probe = hash_hex.as_bytes();
        let n = self.records.len();
        let mut i: usize = 0;
        while i < n
            invariant
                n == self.records@.len(),
                i <= n,
                probe@ == encode_utf8(hash_hex@),
                self@ == self.records@.map_values(|r: PrincipalRecord| r@),
                unique_hashes(self@),
                forall|j: int| 0 <= j < i ==> self@[j].credential_hash != hash_hex@,
            decreases n - i,
        {
            let record = &self.records[i];
            let stored = record.credential_hash.as_str().as_bytes();
            if bytes_equal_constant_time(stored, probe) {
                proof {
                    encode_utf8_decode_utf8(record.credential_hash@);
                    encode_utf8_decode_utf8(hash_hex@);
                    assert(self@[i as int] == record@);
                    let k = hash_index(self@, hash_hex@);
                    assert(self@[k].credential_hash == hash_hex@);
                    assert(k == i);
                }
                return Some(record);
            }
            proof {
                encode_utf8_decode_utf8(record.credential_hash@);
                encode_utf8_decode_utf8(hash_hex@);
                assert(self@[i as int] == record@);
            }
            i = i + 1;
        }
        None
    }

    /// Looks up the first record registered to `principal_id`.
    pub fn find_by_principal_id(&self, principal_id: &str) -> (found: Option<&PrincipalRecord>)
        ensures
            found is Some <==> has_id(self@, principal_id@),
            found is Some ==> exists|i: int|
                is_first_id_index(self@, principal_id@, i) && #[trigger] self@[i]
                    == found.unwrap()@,
    {
        let n = self.records.len();
        let mut i: usize = 0;
        while i < n
            invariant
                n == self.records@.len(),
                i <= n,
                self@ == self.records@.map_values(|r: PrincipalRecord| r@),
                forall|j: int| 0 <= j < i ==> self@[j].principal_id != principal_id@,
            decreases n - i,
        {
            let record = &self.records[i];
            if str_eq(record.principal_id.as_str(), principal_id) {
                assert(self@[i as int] == record@);
                assert(is_first_id_index(self@, principal_id@, i as int));
                return Some(record);
            }
            assert(self@[i as int] == record@);
            i = i + 1;
        }
        None
    }

    /// Inserts or replaces the record under its credential hash, returning any
    /// record it displaced.
    pub fn insert(&mut self, record: PrincipalRecord) -> (displaced: Option<PrincipalRecord>)
        ensures
            has_hash(old(self)@, record@.credential_hash) ==> {
                let i = hash_index(old(self)@, record@.credential_hash);
                &&& displaced is Some
                &&& displaced.unwrap()@ == old(self)@[i]
                &&& final(self)@ == old(self)@.update(i, record@)
            },
            !has_hash(old(self)@, record@.credential_hash) ==> {
                &&& displaced is None
                &&& final(self)@ == old(self)@.push(record@)
            },
    {
        proof {
            use_type_invariant(&*self);
        }
        let mut records: Vec<PrincipalRecord> = Vec::new();
        std::mem::swap(&mut records, &mut self.records);
        let ghost before = records@.map_values(|r: PrincipalRecord| r@);
        assert(before == old(self)@);
        let n = records.len();
        let mut i: usize = 0;
        while i < n
            invariant
                n == records@.len(),
                i <= n,
                before == records@.map_values(|r: PrincipalRecord| r@),
                before == old(self)@,
                unique_hashes(before),
                forall|j: int| 0 <= j < i ==> before[j].credential_hash != record@.credential_hash,
            decreases n - i,
        {
            if str_eq(records[i].credential_hash.as_str(), record.credential_hash.as_str()) {
                assert(before[i as int] == records@[i as int]@);
                let ghost previous = records@[i as int];
                let mut incoming = record;
                std::mem::swap(&mut records[i], &mut incoming);
                proof {
                    assert(incoming == previous);
                    let k = hash_index(before, record@.credential_hash);
                    assert(before[k].credential_hash == record@.credential_hash);
                    assert(k == i);
                    assert(records@.map_values(|r: PrincipalRecord| r@) =~= before.update(
                        i as int,
                        record@,
                    ));
                    let after = before.update(i as int, record@);
                    assert forall|a: int, b: int|
                        0 <= a < after.len() && 0 <= b < after.len() && a != b implies after[a].credential_hash
                        != after[b].credential_hash by {
                        if a == i {
                            assert(after[b] == before[b]);
                        } else if b == i {
                            assert(after[a] == before[a]);
                        }
                    }
                }
                self.records = records;
                return Some(incoming);
            }
            assert(before[i as int] == records@[i as int]@);
            i = i + 1;
        }
        let ghost old_records = records@;
        records.push(record);
        proof {
            assert(records@.map_values(|r: PrincipalRecord| r@) =~= before.push(record@));
            assert(!has_hash(before, record@.credential_hash));
            let after = before.push(record@);
            assert forall|a: int, b: int|
                0 <= a < after.len() && 0 <= b < after.len() && a != b implies after[a].credential_hash
                != after[b].credential_hash by {
                if a == before.len() {
                    assert(after[b] == before[b]);
                } else if b == before.len() {
                    assert(after[a] == before[a]);
                }
            }
        }
        self.records = records;
        None
    }

    /// Removes every record expired at `now` (nanoseconds since the Unix epoch),
    /// returning how many were pruned.
    pub fn prune_expired(&mut self, now: i128) -> (pruned: usize)
        ensures
            final(self)@ == spec_unexpired(old(self)@, now),
            pruned == old(self)@.len() - final(self)@.len(),
    {
        proof {
            use_type_invariant(&*self);
        }
        let mut records: Vec<PrincipalRecord> = Vec::new();
        std::mem::swap(&mut records, &mut self.records);
        let ghost before = records@.map_values(|r: PrincipalRecord| r@);
        let total = records.len();
        let mut kept: Vec<PrincipalRecord> = Vec::new();
        let mut i: usize = 0;
        while records.len() > 0
            invariant
                records@.len() + i == total,
                before.len() == total,
                unique_hashes(before),
                forall|j: int|
                    0 <= j < records@.len() ==> #[trigger] records@[j]@ == before[i + j],
                kept@.map_values(|r: PrincipalRecord| r@) == spec_unexpired(
                    before.subrange(0, i as int),
                    now,
                ),
                kept@.len() <= i,
                forall|k: int| #![trigger kept@[k]]
                    0 <= k < kept@.len() ==> exists|j: int|
                        0 <= j < i && #[trigger] before[j] == kept@[k]@,
                unique_hashes(kept@.map_values(|r: PrincipalRecord| r@)),
            decreases records@.len(),
        {
            let ghost prefix = before.subrange(0, i as int);
            let ghost kept_before = kept@.map_values(|r: PrincipalRecord| r@);
            let record = records.remove(0);
            assert(record@ == before[i as int]);
            assert(before.subrange(0, i + 1).drop_last() =~= prefix);
            assert(before.subrange(0, i + 1).last() == before[i as int]);
            if !record_is_expired(&record, now) {
                kept.push(record);
                proof {
                    let kv = kept@.map_values(|r: PrincipalRecord| r@);
                    assert(kv =~= kept_before.push(before[i as int]));
                    assert forall|k: int| #![trigger kept@[k]]
                        0 <= k < kept@.len() implies exists|j: int|
                            0 <= j < i + 1 && #[trigger] before[j] == kept@[k]@ by {
                        if k < kept_before.len() {
                            assert(kept@[k]@ == kept_before[k]);
                        } else {
                            assert(before[i as int] == kept@[k]@);
                        }
                    }
                    assert forall|a: int, b: int|
                        0 <= a < kv.len() && 0 <= b < kv.len() && a != b implies kv[a].credential_hash
                        != kv[b].credential_hash by {
                        if a == kv.len() - 1 {
                            assert(kv[b] == kept_before[b]);
                            assert(kept@[b]@ == kv[b]);
                            let j = choose|j: int| 0 <= j < i && #[trigger] before[j] == kept@[b]@;
                            assert(before[j].credential_hash != before[i as int].credential_hash);
                        } else if b == kv.len() - 1 {
                            assert(kv[a] == kept_before[a]);
                            assert(kept@[a]@ == kv[a]);
                            let j = choose|j: int| 0 <= j < i && #[trigger] before[j] == kept@[a]@;
                            assert(before[j].credential_hash != before[i as int].credential_hash);
                        } else {
                            assert(kv[a] == kept_before[a]);
                            assert(kv[b] == kept_before[b]);
                        }
                    }
                }
            } else {
                proof {
                    assert forall|k: int| #![trigger kept@[k]]
                        0 <= k < kept@.len() implies exists|j: int|
                            0 <= j < i + 1 && #[trigger] before[j] == kept@[k]@ by {
                        let j = choose|j: int| 0 <= j < i && #[trigger] before[j] == kept@[k]@;
                    }
                }
            }
            assert forall|j: int| 0 <= j < records@.len() implies #[trigger] records@[j]@ == before[i
                + 1 + j] by {}
            i = i + 1;
        }
        assert(before.subrange(0, total as int) =~= before);
        let pruned = total - kept.len();
        self.records = kept;
        pruned
    }

    /// Removes the first record registered to `principal_id`, whatever its
    /// credential hash.
    pub fn remove_by_principal_id(&mut self, principal_id: &str) -> (removed: Option<
        PrincipalRecord,
    >)
        ensures
            removed is Some <==> has_id(old(self)@, principal_id@),
            removed is Some ==> exists|i: int|
                is_first_id_index(old(self)@, principal_id@, i) && #[trigger] old(self)@[i]
                    == removed.unwrap()@ && final(self)@ == old(self)@.remove(i),
            removed is None ==> final(self)@ == old(self)@,
    {
        proof {
            use_type_invariant(&*self);
        }
        let mut records: Vec<PrincipalRecord> = Vec::new();
        std::mem::swap(&mut records, &mut self.records);
        let ghost before = records@.map_values(|r: PrincipalRecord| r@);
        assert(before == old(self)@);
        let n = records.len();
        let mut i: usize = 0;
        while i < n
            invariant
                n == records@.len(),
                i <= n,
                before == records@.map_values(|r: PrincipalRecord| r@),
                before == old(self)@,
                unique_hashes(before),
                forall|j: int| 0 <= j < i ==> before[j].principal_id != principal_id@,
            decreases n - i,
        {
            if str_eq(records[i].principal_id.as_str(), principal_id) {
                assert(before[i as int] == records@[i as int]@);
                let removed = records.remove(i);
                proof {
                    assert(is_first_id_index(before, principal_id@, i as int));
                    let after = before.remove(i as int);
                    assert(records@.map_values(|r: PrincipalRecord| r@) =~= after);
                    assert forall|a: int, b: int|
                        0 <= a < after.len() && 0 <= b < after.len() && a != b implies after[a].credential_hash
                        != after[b].credential_hash by {
                        let a0 = if a < i { a } else { a + 1 };
                        let b0 = if b < i { b } else { b + 1 };
                        assert(after[a] == before[a0]);
                        assert(after[b] == before[b0]);
                    }
                }
                self.records = records;
                return Some(removed);
            }
            assert(before[i as int] == records@[i as int]@);
            i = i + 1;
        }
        self.records = records;
        None
    }
}

} // verus!

verus! {

/// The store after inserting `record`: it replaces the record holding its
/// credential hash, or is appended.
pub open spec fn spec_insert(records: Seq<PrincipalRecordView>, record: PrincipalRecordView) -> Seq<
    PrincipalRecordView,
> {
    if has_hash(records, record.credential_hash) {
        records.update(hash_index(records, record.credential_hash), record)
    } else {
        records.push(record)
    }
}

/// The store after inserting each of `incoming` in turn.
pub open spec fn spec_insert_all(
    records: Seq<PrincipalRecordView>,
    incoming: Seq<PrincipalRecordView>,
) -> Seq<PrincipalRecordView>
    decreases incoming.len(),
{
    if incoming.len() == 0 {
        records
    } else {
        spec_insert(spec_insert_all(records, incoming.drop_last()), incoming.last())
    }
}

impl PrincipalStore {
    /// Builds a store from loaded records, each inserted in turn, so a later
    /// record under an already-seen credential hash replaces the earlier one.
    pub fn from_records(records: Vec<PrincipalRecord>) -> (store: Self)
        ensures
            store@ == spec_insert_all(
                Seq::empty(),
                records@.map_values(|r: PrincipalRecord| r@),
            ),
    {
        let ghost incoming = records@.map_values(|r: PrincipalRecord| r@);
        let mut store = PrincipalStore::new();
        let mut remaining = records;
        let total = remaining.len();
        let mut i: usize = 0;
        while remaining.len() > 0
            invariant
                remaining@.len() + i == total,
                incoming.len() == total,
                forall|j: int|
                    0 <= j < remaining@.len() ==> #[trigger] remaining@[j]@ == incoming[i + j],
                store@ == spec_insert_all(Seq::empty(), incoming.subrange(0, i as int)),
            decreases remaining@.len(),
        {
            let record = remaining.remove(0);
            assert(record@ == incoming[i as int]);
            let ghost before = store@;
            store.insert(record);
            assert(incoming.subrange(0, i + 1).drop_last() =~= incoming.subrange(0, i as int));
            assert(store@ == spec_insert(before, incoming[i as int]));
            assert forall|j: int| 0 <= j < remaining@.len() implies #[trigger] remaining@[j]@
                == incoming[i + 1 + j] by {}
            i = i + 1;
        }
        assert(incoming.subrange(0, total as int) =~= incoming);
        store
    }
}

/// Inserting a record makes its credential hash find exactly that record, and
/// leaves the record of every other credential hash where it was.
pub proof fn lemma_insert_then_find(
    records: Seq<PrincipalRecordView>,
    record: PrincipalRecordView,
    other: Seq<char>,
)
    requires
        unique_hashes(records),
    ensures
        has_hash(spec_insert(records, record), record.credential_hash),
        spec_insert(records, record)[hash_index(
            spec_insert(records, record),
            record.credential_hash,
        )] == record,
        other != record.credential_hash ==> (has_hash(spec_insert(records, record), other)
            <==> has_hash(records, other)),
        other != record.credential_hash && has_hash(records, other) ==> spec_insert(
            records,
            record,
        )[hash_index(spec_insert(records, record), other)] == records[hash_index(records, other)],
        unique_hashes(spec_insert(records, record)),
{
    let after = spec_insert(records, record);
    let h = record.credential_hash;
    if has_hash(records, h) {
        let i = hash_index(records, h);
        assert(after[i].credential_hash == h);
        assert forall|a: int, b: int|
            0 <= a < after.len() && 0 <= b < after.len() && a != b implies after[a].credential_hash
            != after[b].credential_hash by {
            if a == i {
                assert(after[b] == records[b]);
            } else if b == i {
                assert(after[a] == records[a]);
            }
        }
    } else {
        let i = records.len() as int;
        assert(after[i].credential_hash == h);
        assert forall|a: int, b: int|
            0 <= a < after.len() && 0 <= b < after.len() && a != b implies after[a].credential_hash
            != after[b].credential_hash by {
            if a == i {
                assert(after[b] == records[b]);
            } else if b == i {
                assert(after[a] == records[a]);
            }
        }
    }
    let k = hash_index(after, h);
    assert(after[k].credential_hash == h);
    if other != h {
        if has_hash(records, other) {
            let j = hash_index(records, other);
            assert(after[j] == records[j]);
            let m = hash_index(after, other);
            assert(after[m].credential_hash == other);
        }
        if has_hash(after, other) {
            let m = hash_index(after, other);
            assert(after[m] == records[m]);
        }
    }
}

/// Pruning leaves no record that is expired at `now`, and keeps every one that
/// is not.
pub proof fn lemma_prune_keeps_exactly_unexpired(records: Seq<PrincipalRecordView>, now: i128)
    ensures
        forall|i: int|
            0 <= i < spec_unexpired(records, now).len() ==> !spec_expired(
                #[trigger] spec_unexpired(records, now)[i].expires_at,
                now,
            ),
        forall|i: int|
            0 <= i < records.len() && !spec_expired(records[i].expires_at, now) ==> spec_unexpired(
                records,
                now,
            ).contains(#[trigger] records[i]),
        spec_unexpired(records, now).len() <= records.len(),
    decreases records.len(),
{
    if records.len() > 0 {
        let rest = records.drop_last();
        lemma_prune_keeps_exactly_unexpired(rest, now);
        let kept = spec_unexpired(records, now);
        let kept_rest = spec_unexpired(rest, now);
        assert forall|i: int|
            0 <= i < records.len() && !spec_expired(records[i].expires_at, now) implies kept.contains(
                #[trigger] records[i],
            ) by {
            if i < records.len() - 1 {
                assert(records[i] == rest[i]);
                assert(kept_rest.contains(rest[i]));
                let k = choose|k: int| 0 <= k < kept_rest.len() && kept_rest[k] == rest[i];
                assert(kept[k] == kept_rest[k]);
            } else {
                assert(kept[kept.len() - 1] == records.last());
            }
        }
    }
}

/// Introspection rights recorded on an application principal's connection.
#[derive(Debug)]
pub struct IdentityIntrospectRights {
    pub scope: Option<String>,
}

/// Result of verifying a Hello credential against the principal store.
#[derive(Debug)]
pub struct VerifiedIdentity {
    pub principal_type: PrincipalType,
    /// True when a recognized store credential backed the identity.
    pub store_backed: bool,
    /// The registered scope of an `Application` principal; `None` otherwise.
    pub introspect_rights: Option<IdentityIntrospectRights>,
    /// The registered ingress scope of a `Relay` principal; `None` otherwise.
    pub ingress_scope: Option<String>,
}

pub struct VerifiedIdentityView {
    pub principal_type: PrincipalType,
    pub store_backed: bool,
    pub introspect_rights: Option<Option<Seq<char>>>,
    pub ingress_scope: Option<Seq<char>>,
}

impl View for VerifiedIdentity {
    type V = VerifiedIdentityView;

    open spec fn view(&self) -> VerifiedIdentityView {
        VerifiedIdentityView {
            principal_type: self.principal_type,
            store_backed: self.store_backed,
            introspect_rights: match self.introspect_rights {
                None => None,
                Some(rights) => Some(opt_view(rights.scope)),
            },
            ingress_scope: opt_view(self.ingress_scope),
        }
    }
}

/// `socket-trust`, the token presented by sessions with no provisioned PSK.
pub open spec fn socket_trust_token() -> Seq<char> {
    seq!['s', 'o', 'c', 'k', 'e', 't', '-', 't', 'r', 'u', 's', 't']
}

pub open spec fn principal_detail(principal_id: Seq<char>) -> Option<Seq<DetailView>> {
    Some(seq![text_detail("principal_id"@, principal_id)])
}

pub open spec fn spec_socket_trust(
    principal_id: Seq<char>,
    claimed: PrincipalType,
    require_session_credentials: bool,
) -> Result<VerifiedIdentityView, RelayErrorView> {
    if claimed == PrincipalType::Application || claimed == PrincipalType::Relay {
        Err(
            error_view(
                "validation_credential_required"@,
                "application and relay principals require a registered credential"@,
                principal_detail(principal_id),
            ),
        )
    } else if require_session_credentials {
        Err(
            error_view(
                "validation_credential_required"@,
                "relay requires session credentials; socket-trust is not accepted"@,
                principal_detail(principal_id),
            ),
        )
    } else {
        Ok(
            VerifiedIdentityView {
                principal_type: claimed,
                store_backed: false,
                introspect_rights: None,
                ingress_scope: None,
            },
        )
    }
}

/// What a Hello `principal_id` + `identity_token` is worth against `records`.
pub open spec fn spec_verify_hello(
    principal_id: Seq<char>,
    token: Seq<char>,
    records: Seq<PrincipalRecordView>,
    require_session_credentials: bool,
    now: i128,
) -> Result<VerifiedIdentityView, RelayErrorView> {
    match spec_classify(principal_id) {
        None => Err(
            error_view(
                "validation_invalid_principal_id"@,
                "hello principal_id is not in <id>@<namespace> form"@,
                principal_detail(principal_id),
            ),
        ),
        Some(claimed) => if token == socket_trust_token() {
            spec_socket_trust(principal_id, claimed, require_session_credentials)
        } else if !has_hash(records, token_hash(token)) {
            Err(
                error_view(
                    "validation_unrecognized_credential"@,
                    "hello identity_token did not match any registered principal"@,
                    principal_detail(principal_id),
                ),
            )
        } else {
            let record = records[hash_index(records, token_hash(token))];
            if record.principal_id != principal_id {
                Err(
                    error_view(
                        "validation_identity_binding_mismatch"@,
                        "presented credential is registered to a different principal_id"@,
                        Some(
                            seq![
                                text_detail("principal_id"@, principal_id),
                                text_detail("registered_principal_id"@, record.principal_id),
                            ],
                        ),
                    ),
                )
            } else if spec_expired(record.expires_at, now) {
                Err(
                    error_view(
                        "runtime_identity_expired"@,
                        "identity credential has expired; re-register or rotate the credential"@,
                        Some(
                            seq![
                                text_detail("principal_id"@, principal_id),
                                text_detail("expires_at"@, record.expires_at.unwrap()),
                            ],
                        ),
                    ),
                )
            } else {
                Ok(
                    VerifiedIdentityView {
                        principal_type: record.principal_type,
                        store_backed: true,
                        introspect_rights: if record.principal_type == PrincipalType::Application {
                            Some(record.scope)
                        } else {
                            None
                        },
                        ingress_scope: if record.principal_type == PrincipalType::Relay {
                            record.scope
                        } else {
                            None
                        },
                    },
                )
            }
        },
    }
}

pub open spec fn result_view(
    result: Result<VerifiedIdentity, RelayError>,
) -> Result<VerifiedIdentityView, RelayErrorView> {
    match result {
        Ok(identity) => Ok(identity@),
        Err(error) => Err(error@),
    }
}

fn copy_opt(value: &Option<String>) -> (copy: Option<String>)
    ensures
        opt_view(copy) == opt_view(*value),
{
    match value {
        None => None,
        Some(s) => Some(s.clone()),
    }
}

fn verify_socket_trust(
    principal_id: &str,
    claimed_type: PrincipalType,
    require_session_credentials: bool,
) -> (verified: Result<VerifiedIdentity, RelayError>)
    ensures
        result_view(verified) == spec_socket_trust(
            principal_id@,
            claimed_type,
            require_session_credentials,
        ),
{
    match claimed_type {
        PrincipalType::Application | PrincipalType::Relay => Err(
            relay_error(
                "validation_credential_required",
                "application and relay principals require a registered credential",
                one_detail(text_field("principal_id", principal_id)),
            ),
        ),
        PrincipalType::Session | PrincipalType::User => {
            if require_session_credentials {
                return Err(
                    relay_error(
                        "validation_credential_required",
                        "relay requires session credentials; socket-trust is not accepted",
                        one_detail(text_field("principal_id", principal_id)),
                    ),
                );
            }
            Ok(
                VerifiedIdentity {
                    principal_type: claimed_type,
                    store_backed: false,
                    introspect_rights: None,
                    ingress_scope: None,
                },
            )
        },
    }
}

/// Verifies a Hello `principal_id` + `identity_token` against the principal
/// store and the relay-wide enforcement policy, at `now` (nanoseconds since the
/// Unix epoch).
///
/// A recognized token must be registered to the claimed principal. The
/// `socket-trust` sentinel is accepted for session and user principals only
/// when enforcement is off; application and relay principals always need a
/// recognized credential. Unrecognized tokens are rejected fail-closed, and an
/// expired recognized credential gets its own error.
pub fn verify_hello_credential(
    principal_id: &str,
    identity_token: &str,
    store: &PrincipalStore,
    require_session_credentials: bool,
    now: i128,
) -> (verified: Result<VerifiedIdentity, RelayError>)
    ensures
        result_view(verified) == spec_verify_hello(
            principal_id@,
            identity_token@,
            store@,
            require_session_credentials,
            now,
        ),
{
    let claimed_type = match classify_principal_id(principal_id) {
        None => {
            return Err(
                relay_error(
                    "validation_invalid_principal_id",
                    "hello principal_id is not in <id>@<namespace> form",
                    one_detail(text_field("principal_id", principal_id)),
                ),
            );
        },
        Some(kind) => kind,
    };
    proof {
        reveal_strlit("socket-trust");
        assert("socket-trust"@ =~= socket_trust_token());
    }
    if str_eq(identity_token, "socket-trust") {
        return verify_socket_trust(principal_id, claimed_type, require_session_credentials);
    }
    let hash = hash_token_sha256(identity_token);
    let record = match store.find_by_credential_hash(hash.as_str()) {
        None => {
            return Err(
                relay_error(
                    "validation_unrecognized_credential",
                    "hello identity_token did not match any registered principal",
                    one_detail(text_field("principal_id", principal_id)),
                ),
            );
        },
        Some(record) => record,
    };
    if !str_eq(record.principal_id.as_str(), principal_id) {
        return Err(
            relay_error(
                "validation_identity_binding_mismatch",
                "presented credential is registered to a different principal_id",
                two_details(
                    text_field("principal_id", principal_id),
                    text_field("registered_principal_id", record.principal_id.as_str()),
                ),
            ),
        );
    }
    if record.is_expired(now) {
        let expires_at = match &record.expires_at {
            Some(raw) => raw.as_str(),
            None => "",
        };
        return Err(
            relay_error(
                "runtime_identity_expired",
                "identity credential has expired; re-register or rotate the credential",
                two_details(
                    text_field("principal_id", principal_id),
                    text_field("expires_at", expires_at),
                ),
            ),
        );
    }
    let introspect_rights = match record.principal_type {
        PrincipalType::Application => Some(
            IdentityIntrospectRights { scope: copy_opt(&record.scope) },
        ),
        _ => None,
    };
    let ingress_scope = match record.principal_type {
        PrincipalType::Relay => copy_opt(&record.scope),
        _ => None,
    };
    Ok(
        VerifiedIdentity {
            principal_type: record.principal_type,
            store_backed: true,
            introspect_rights,
            ingress_scope,
        },
    )
}

/// The sentinel is accepted only for session and user principals, only when
/// enforcement is off, and then grants no introspection and no ingress scope;
/// application and relay principals are never admitted without a credential.
pub proof fn lemma_socket_trust_is_least_privilege(
    principal_id: Seq<char>,
    records: Seq<PrincipalRecordView>,
    require_session_credentials: bool,
    now: i128,
)
    requires
        spec_classify(principal_id) is Some,
    ensures
        ({
            let verdict = spec_verify_hello(
                principal_id,
                socket_trust_token(),
                records,
                require_session_credentials,
                now,
            );
            &&& verdict is Ok <==> (!require_session_credentials && (spec_classify(principal_id)
                == Some(PrincipalType::Session) || spec_classify(principal_id) == Some(
                PrincipalType::User)))
            &&& verdict is Ok ==> !verdict->Ok_0.store_backed && verdict->Ok_0.introspect_rights
                is None && verdict->Ok_0.ingress_scope is None
        }),
{
}

/// A recognized credential authenticates only the principal it is registered
/// to, and only while it has not expired.
pub proof fn lemma_credential_binds_its_principal(
    principal_id: Seq<char>,
    token: Seq<char>,
    records: Seq<PrincipalRecordView>,
    require_session_credentials: bool,
    now: i128,
)
    requires
        token != socket_trust_token(),
        spec_verify_hello(principal_id, token, records, require_session_credentials, now) is Ok,
    ensures
        has_hash(records, token_hash(token)),
        records[hash_index(records, token_hash(token))].principal_id == principal_id,
        !spec_expired(records[hash_index(records, token_hash(token))].expires_at, now),
        spec_verify_hello(
            principal_id,
            token,
            records,
            require_session_credentials,
            now,
        )->Ok_0.store_backed,
{
}

} // verus!
