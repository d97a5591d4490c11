//! The calls into outside crates and into std. Each function here states what is
//! believed, without proof, of the function that it calls.
use crate::encoding::{b64_decoding, b64_encoding};
use crate::model::sessions_elsewhere;
use crate::protocol::{ConnId, Timestamp, UserId, UserRecord, UserRecordView};
use crate::state::Session;
use crate::text::decimal;
use base64::engine::general_purpose::STANDARD;
use base64::Engine as _;
use dashmap::DashMap;
use pqcrypto_dilithium::dilithium3;
use pqcrypto_kyber::kyber768;
use pqcrypto_traits::kem::PublicKey as _;
use pqcrypto_traits::sign::{DetachedSignature as _, PublicKey as _};
use rand::RngCore as _;
use vstd::prelude::*;

verus! {

// ---------------------------------------------------------------------------
// Tables
// ---------------------------------------------------------------------------

/// `dashmap::DashMap`, opaque.
#[verifier::external_type_specification]
#[verifier::external_body]
#[verifier::reject_recursive_types(K)]
#[verifier::reject_recursive_types(V)]
#[verifier::reject_recursive_types(S)]
pub struct ExDashMap<K, V, S>(dashmap::DashMap<K, V, S>);

/// The users that a table holds, by id. Every function below that changes a table
/// borrows it mutably, so a shared table holds the same users throughout.
pub uninterp spec fn user_table(users: DashMap<UserId, UserRecord>) -> Map<UserId, UserRecordView>;

/// Calls `DashMap::new`: the new table is empty.
#[verifier::external_body]
pub(crate) fn users_new() -> (users: DashMap<UserId, UserRecord>)
    ensures
        (user_table(users) == Map::<UserId, UserRecordView>::empty()),
{
    DashMap::new()
}

/// Calls `DashMap::insert`: the id now has this record, whatever it had before, and
/// every other id has what it had.
#[verifier::external_body]
pub(crate) fn users_insert(users: &mut DashMap<UserId, UserRecord>, id: UserId, record: UserRecord)
    ensures
        user_table(*final(users)) == user_table(*old(users)).insert(id, record@),
{
    users.insert(id, record);
}

/// Calls `DashMap::get` and hands out a copy of the record, if the id has one.
#[verifier::external_body]
pub(crate) fn users_get(users: &DashMap<UserId, UserRecord>, id: UserId) -> (record: Option<
    UserRecord,
>)
    ensures
        record is Some <==> user_table(*users).contains_key(id),
        record matches Some(r) ==> r@ == user_table(*users)[id],
{
    users.get(&id).map(|r| r.value().clone())
}

/// Calls `DashMap::contains_key`: whether the id has a record.
#[verifier::external_body]
pub(crate) fn users_contains(users: &DashMap<UserId, UserRecord>, id: UserId) -> (found: bool)
    ensures
        found == user_table(*users).contains_key(id),
{
    users.contains_key(&id)
}

/// The sessions that a table holds, by user.
pub uninterp spec fn session_table(online: DashMap<UserId, Session>) -> Map<UserId, Session>;

/// Calls `DashMap::new`: the new table is empty.
#[verifier::external_body]
pub(crate) fn online_new() -> (online: DashMap<UserId, Session>)
    ensures
        (session_table(online) == Map::<UserId, Session>::empty()),
{
    DashMap::new()
}

/// Calls `DashMap::insert`: the user now has this session, whatever it had before,
/// and every other user has what it had.
#[verifier::external_body]
pub(crate) fn online_insert(online: &mut DashMap<UserId, Session>, user: UserId, session: Session)
    ensures
        session_table(*final(online)) == session_table(*old(online)).insert(user, session),
{
    online.insert(user, session);
}

/// Calls `DashMap::get` and hands out a copy of the session, if the user has one.
#[verifier::external_body]
pub(crate) fn online_get(online: &DashMap<UserId, Session>, user: UserId) -> (session: Option<
    Session,
>)
    ensures
        session is Some <==> session_table(*online).contains_key(user),
        session matches Some(s) ==> s == session_table(*online)[user],
{
    online.get(&user).map(|s| *s.value())
}

/// Calls `DashMap::retain`: the sessions that are on another connection stay as they
/// are, and those on this connection are gone.
#[verifier::external_body]
pub(crate) fn online_retain_elsewhere(online: &mut DashMap<UserId, Session>, conn: ConnId)
    ensures
        session_table(*final(online)) == sessions_elsewhere(session_table(*old(online)), conn),
{
    online.retain(|_, session| session.is_elsewhere(conn));
}

// ---------------------------------------------------------------------------
// Base64
// ---------------------------------------------------------------------------

/// `base64::DecodeError`, opaque.
#[verifier::external_type_specification]
#[verifier::external_body]
pub struct ExDecodeError(base64::DecodeError);

/// Calls `Engine::encode` of base64's `STANDARD` engine: it writes the standard alphabet
/// with padding.
#[verifier::external_body]
pub(crate) fn b64(bytes: &[u8]) -> (text: String)
    ensures
        text@ == b64_encoding(bytes@),
{
    STANDARD.encode(bytes)
}

/// Calls `Engine::decode` of base64's `STANDARD` engine. The engine demands canonical
/// padding and refuses stray trailing bits, so it reads exactly the texts that it
/// writes, and reads in them the bytes that it writes them for.
#[verifier::external_body]
pub(crate) fn b64_decode(text: &str) -> (bytes: Result<Vec<u8>, base64::DecodeError>)
    ensures
        bytes is Ok <==> b64_decoding(text@) is Some,
        bytes matches Ok(b) ==> b64_encoding(b@) == text@,
{
    STANDARD.decode(text)
}

// ---------------------------------------------------------------------------
// Post-quantum cryptography
// ---------------------------------------------------------------------------

/// Length of a Kyber768 public key.
pub const KYBER768_PUBLIC_KEY_BYTES: usize = 1184;

/// Length of a Dilithium3 public key.
pub const DILITHIUM3_PUBLIC_KEY_BYTES: usize = 1952;

/// Length of a Dilithium3 signature.
pub const DILITHIUM3_SIGNATURE_BYTES: usize = 3309;

/// How `pqcrypto_traits::Error::BadLength` reads in debug format.
pub open spec fn bad_length_text(name: Seq<char>, actual: nat, expected: nat) -> Seq<char> {
    "BadLength { name: \""@ + name + "\", actual: "@ + decimal(actual) + ", expected: "@ + decimal(
        expected,
    ) + " }"@
}

/// Calls `kyber768::PublicKey::from_bytes`, which looks at the length alone. An error
/// is handed out in its debug format.
#[verifier::external_body]
pub(crate) fn kyber768_public_key(bytes: &[u8]) -> (parsed: Result<(), String>)
    ensures
        parsed is Ok <==> bytes@.len() == KYBER768_PUBLIC_KEY_BYTES,
        parsed matches Err(t) ==> t@ == bad_length_text(
            "PublicKey"@,
            bytes@.len(),
            KYBER768_PUBLIC_KEY_BYTES as nat,
        ),
{
    kyber768::PublicKey::from_bytes(bytes).map(|_| ()).map_err(|e| format!("{e:?}"))
}

/// Calls `dilithium3::PublicKey::from_bytes`, which looks at the length alone. An
/// error is handed out in its debug format.
#[verifier::external_body]
pub(crate) fn dilithium3_public_key(bytes: &[u8]) -> (parsed: Result<(), String>)
    ensures
        parsed is Ok <==> bytes@.len() == DILITHIUM3_PUBLIC_KEY_BYTES,
        parsed matches Err(t) ==> t@ == bad_length_text(
            "PublicKey"@,
            bytes@.len(),
            DILITHIUM3_PUBLIC_KEY_BYTES as nat,
        ),
{
    dilithium3::PublicKey::from_bytes(bytes).map(|_| ()).map_err(|e| format!("{e:?}"))
}

/// Calls `dilithium3::DetachedSignature::from_bytes`, which refuses what is longer
/// than a signature and accepts what is shorter. An error is handed out in its debug
/// format.
#[verifier::external_body]
pub(crate) fn dilithium3_signature(bytes: &[u8]) -> (parsed: Result<(), String>)
    ensures
        parsed is Ok <==> bytes@.len() <= DILITHIUM3_SIGNATURE_BYTES,
        parsed matches Err(t) ==> t@ == bad_length_text(
            "DetachedSignature"@,
            bytes@.len(),
            DILITHIUM3_SIGNATURE_BYTES as nat,
        ),
{
    dilithium3::DetachedSignature::from_bytes(bytes).map(|_| ()).map_err(|e| format!("{e:?}"))
}

/// Whether Dilithium3 accepts a signature over a message under a public key.
pub uninterp spec fn dilithium3_accepts(
    public_key: Seq<u8>,
    message: Seq<u8>,
    signature: Seq<u8>,
) -> bool;

/// Calls `dilithium3::verify_detached_signature` on the parsed key and signature.
/// Its verdict is named `dilithium3_accepts`; it accepts no signature that is shorter
/// than a signature should be.
#[verifier::external_body]
pub(crate) fn dilithium3_verify(public_key: &[u8], message: &[u8], signature: &[u8]) -> (accepted:
    bool)
    requires
        public_key@.len() == DILITHIUM3_PUBLIC_KEY_BYTES,
        signature@.len() <= DILITHIUM3_SIGNATURE_BYTES,
    ensures
        accepted == dilithium3_accepts(public_key@, message@, signature@),
        accepted ==> signature@.len() == DILITHIUM3_SIGNATURE_BYTES,
{
    let key = dilithium3::PublicKey::from_bytes(public_key);
    let sig = dilithium3::DetachedSignature::from_bytes(signature);
    match (key, sig) {
        (Ok(key), Ok(sig)) => dilithium3::verify_detached_signature(&sig, message, &key).is_ok(),
        _ => false,
    }
}

// ---------------------------------------------------------------------------
// Chance, time and identifiers
// ---------------------------------------------------------------------------

/// Calls `fill_bytes` of rand's `OsRng`, which overwrites the buffer with random
/// bytes and keeps its length. It panics if the operating system has no randomness
/// to give.
#[verifier::external_body]
pub(crate) fn fill_from_os(buffer: &mut Vec<u8>)
    ensures
        final(buffer)@.len() == old(buffer)@.len(),
{
    rand::rngs::OsRng.fill_bytes(buffer.as_mut_slice())
}

/// Calls `fill_bytes` of rand's `thread_rng`, which overwrites the buffer with random
/// bytes and keeps its length. It panics if the generator cannot be seeded.
#[verifier::external_body]
pub(crate) fn fill_from_thread_rng(buffer: &mut Vec<u8>)
    ensures
        final(buffer)@.len() == old(buffer)@.len(),
{
    rand::thread_rng().fill_bytes(buffer.as_mut_slice())
}

/// Whether an identifier is a random UUID: version four, RFC variant.
pub open spec fn is_random_uuid(id: u128) -> bool {
    &&& (id as nat / 0x10000000000000000000) % 16 == 4
    &&& (id as nat / 0x4000000000000000) % 4 == 2
}

/// Calls `Uuid::new_v4`: any random UUID may come back. It panics if there is no
/// randomness to be had.
#[verifier::external_body]
pub(crate) fn new_uuid() -> (id: u128)
    ensures
        is_random_uuid(id),
{
    uuid::Uuid::new_v4().as_u128()
}

/// The bytes of an identifier, most significant first.
pub open spec fn uuid_octets(id: u128) -> Seq<u8> {
    Seq::new(
        16,
        |i: int| ((id as int / vstd::arithmetic::power::pow(256, (15 - i) as nat)) % 256) as u8,
    )
}

/// Calls `Uuid::as_bytes` on the UUID of these bits: its bytes, most significant
/// first.
#[verifier::external_body]
pub(crate) fn uuid_bytes(id: u128) -> (bytes: Vec<u8>)
    ensures
        bytes@ == uuid_octets(id),
{
    uuid::Uuid::from_u128(id).as_bytes().to_vec()
}

/// Calls `chrono::Utc::now`: whatever the clock says, the nanoseconds are less than a
/// second. It panics if the clock stands before the Unix epoch.
#[verifier::external_body]
pub(crate) fn utc_now() -> (now: Timestamp)
    ensures
        now.nanos < 1_000_000_000,
{
    let now = chrono::Utc::now();
    Timestamp { secs: now.timestamp(), nanos: now.timestamp_subsec_nanos() }
}

// ---------------------------------------------------------------------------
// UTF-8
// ---------------------------------------------------------------------------

/// Calls `String::from_utf8`: the decoded text where the bytes are valid UTF-8, and
/// nothing otherwise.
#[verifier::external_body]
pub(crate) fn utf8_text(bytes: Vec<u8>) -> (text: Option<String>)
    ensures
        text is Some <==> vstd::utf8::valid_utf8(bytes@),
        text matches Some(t) ==> t@ == vstd::utf8::decode_utf8(bytes@),
{
    String::from_utf8(bytes).ok()
}

/// The text that `String::from_utf8_lossy` makes of some bytes.
pub uninterp spec fn utf8_lossy(bytes: Seq<u8>) -> Seq<char>;

/// Calls `String::from_utf8_lossy`. What it makes of the bytes is named `utf8_lossy`;
/// valid UTF-8 is decoded as it stands.
#[verifier::external_body]
pub(crate) fn utf8_lossy_text(bytes: &[u8]) -> (text: String)
    ensures
        text@ == utf8_lossy(bytes@),
        vstd::utf8::valid_utf8(bytes@) ==> text@ == vstd::utf8::decode_utf8(bytes@),
{
    String::from_utf8_lossy(bytes).into_owned()
}

} // verus!
