//! Credentials, the record written to the store, the decoding of a record
//! read back from it, and the mapping of the store's status codes.
use vstd::prelude::*;
use crate::blob::{blob_from_units, blob_of, lemma_units_of_blob_of, units_from_blob, units_of_blob};
use crate::text::{
    decode_units, encode_nul_terminated, lemma_decode_utf16_of, utf16_decode_lossy, utf16_of,
};

verus! {

/// The credential type tag of a generic credential.
pub const CRED_TYPE_GENERIC: u32 = 1;

/// Persistence scope: kept on this machine across logon sessions, never
/// roamed.
pub const CRED_PERSIST_LOCAL_MACHINE: u32 = 2;

/// The flags written with every record: none.
pub const CRED_NO_FLAGS: u32 = 0;

/// The status code the store reports when no record exists for a target:
/// `ERROR_NOT_FOUND` (1168) as an HRESULT, 0x80070490.
pub const NOT_FOUND_CODE: i32 = -2147023728;

/// A username and its secret.
#[derive(Clone, Debug)]
pub struct Credential {
    pub username: String,
    pub secret: String,
}

/// Why an operation on the store did not succeed.
#[derive(Clone, Copy, Debug, PartialEq, Eq, Structural)]
pub enum CredentialError {
    /// A text holds a nul character, or the secret is too long for the
    /// record's size field; found before the store is called.
    EncodingError,
    /// No record exists for the target.
    NotFound,
    /// Any other failure the store reported, with its status code.
    OsError(i32),
}

/// The record handed to the store's write operation. The buffers stay owned
/// here and must outlive the call that borrows them.
#[derive(Debug)]
pub struct WriteRecord {
    pub flags: u32,
    pub cred_type: u32,
    pub persist: u32,
    /// The target name, UTF-16 with a nul terminator.
    pub target: Vec<u16>,
    /// The username, UTF-16 with a nul terminator.
    pub username: Vec<u16>,
    /// The secret's UTF-16 units as bytes, low byte first, unterminated.
    pub blob: Vec<u8>,
    /// The exact length of `blob` in bytes.
    pub blob_size: u32,
    pub last_written_low: u32,
    pub last_written_high: u32,
}

/// The fields copied out of a record that the store returned, before the
/// store's memory is released.
#[derive(Debug)]
pub struct RawRecord {
    /// The username's UTF-16 units, up to but not including the terminator.
    pub username: Vec<u16>,
    /// The blob's bytes, exactly as many as the record's size field gives.
    pub blob: Vec<u8>,
}

/// A secret whose blob length fits the record's 32-bit size field.
pub open spec fn secret_fits(secret: Seq<char>) -> bool {
    2 * utf16_of(secret).len() <= u32::MAX
}

/// What a write of `username` and `secret` under `target` may proceed with.
pub open spec fn writable(target: Seq<char>, username: Seq<char>, secret: Seq<char>) -> bool {
    &&& !target.contains('\0')
    &&& !username.contains('\0')
    &&& !secret.contains('\0')
    &&& secret_fits(secret)
}

/// `rec` is the record for writing `username` and `secret` under `target`.
pub open spec fn is_write_record(
    rec: WriteRecord,
    target: Seq<char>,
    username: Seq<char>,
    secret: Seq<char>,
    last_written_low: u32,
    last_written_high: u32,
) -> bool {
    &&& rec.flags == CRED_NO_FLAGS
    &&& rec.cred_type == CRED_TYPE_GENERIC
    &&& rec.persist == CRED_PERSIST_LOCAL_MACHINE
    &&& rec.target@ == utf16_of(target).push(0)
    &&& rec.username@ == utf16_of(username).push(0)
    &&& rec.blob@ == blob_of(utf16_of(secret))
    &&& rec.blob_size == rec.blob@.len()
    &&& rec.last_written_low == last_written_low
    &&& rec.last_written_high == last_written_high
}

/// The username a raw record decodes to.
pub open spec fn decoded_username(raw: RawRecord) -> Seq<char> {
    utf16_decode_lossy(raw.username@)
}

/// The secret a raw record decodes to.
pub open spec fn decoded_secret(raw: RawRecord) -> Seq<char> {
    utf16_decode_lossy(units_of_blob(raw.blob@))
}

/// The error for a status code the store reported.
pub open spec fn error_of_code(code: i32) -> CredentialError {
    if code == NOT_FOUND_CODE {
        CredentialError::NotFound
    } else {
        CredentialError::OsError(code)
    }
}

/// The target name as the store's read, write and delete operations take
/// it: UTF-16 with a nul terminator.
pub fn encode_target(target: &str) -> (r: Result<Vec<u16>, CredentialError>)
    ensures
        r is Err <==> target@.contains('\0'),
        r matches Err(e) ==> e == CredentialError::EncodingError,
        r matches Ok(v) ==> v@ == utf16_of(target@).push(0),
{
    match encode_nul_terminated(target) {
        Some(v) => Ok(v),
        None => Err(CredentialError::EncodingError),
    }
}

/// The record for writing `cred` under `target`, stamped with the given
/// last-written time. Fails with `EncodingError`, before any call to the
/// store, when a text holds a nul character or the secret's blob would not
/// fit the record's size field.
pub fn build_write_record(
    target: &str,
    cred: &Credential,
    last_written_low: u32,
    last_written_high: u32,
) -> (r: Result<WriteRecord, CredentialError>)
    ensures
        r is Ok <==> writable(target@, cred.username@, cred.secret@),
        r matches Err(e) ==> e == CredentialError::EncodingError,
        r matches Ok(rec) ==> is_write_record(
            rec,
            target@,
            cred.username@,
            cred.secret@,
            last_written_low,
            last_written_high,
        ),
{
    let target_w = match encode_target(target) {
        Ok(v) => v,
        Err(e) => return Err(e),
    };
    let user_w = match encode_nul_terminated(cred.username.as_str()) {
        Some(v) => v,
        None => return Err(CredentialError::EncodingError),
    };
    let mut secret_w = match encode_nul_terminated(cred.secret.as_str()) {
        Some(v) => v,
        None => return Err(CredentialError::EncodingError),
    };
    // The blob carries its length in the size field, not a terminator.
    secret_w.pop();
    assert(secret_w@ =~= utf16_of(cred.secret@));
    if secret_w.len() > (u32::MAX / 2) as usize {
        return Err(CredentialError::EncodingError);
    }
    let blob = blob_from_units(&secret_w);
    let blob_size = blob.len() as u32;
    Ok(WriteRecord {
        flags: CRED_NO_FLAGS,
        cred_type: CRED_TYPE_GENERIC,
        persist: CRED_PERSIST_LOCAL_MACHINE,
        target: target_w,
        username: user_w,
        blob,
        blob_size,
        last_written_low,
        last_written_high,
    })
}

/// The credential held by a record that the store returned: the username
/// and the secret decoded from UTF-16, the secret from exactly the blob's
/// bytes. An empty blob gives an empty secret.
pub fn decode_credential(raw: RawRecord) -> (r: Credential)
    ensures
        r.username@ == decoded_username(raw),
        r.secret@ == decoded_secret(raw),
{
    let units = units_from_blob(&raw.blob);
    let secret = decode_units(units);
    let username = decode_units(raw.username);
    Credential { username, secret }
}

/// The error for a status code that the store reported: `NotFound` for
/// the store's not-found code, `OsError` keeping any other code.
pub fn error_from_code(code: i32) -> (r: CredentialError)
    ensures
        r == error_of_code(code),
{
    if code == NOT_FOUND_CODE {
        CredentialError::NotFound
    } else {
        CredentialError::OsError(code)
    }
}

/// The result of a read, from what the store's read operation gave: the
/// decoded credential when it returned a record, else the error for its
/// status code.
pub fn read_outcome(os: Result<RawRecord, i32>) -> (r: Result<Credential, CredentialError>)
    ensures
        os matches Ok(raw) ==> (r matches Ok(c) && c.username@ == decoded_username(raw)
            && c.secret@ == decoded_secret(raw)),
        os matches Err(code) ==> r == Err::<Credential, CredentialError>(error_of_code(code)),
{
    match os {
        Ok(raw) => Ok(decode_credential(raw)),
        Err(code) => Err(error_from_code(code)),
    }
}

/// The result of a write or a delete, from the status the store reported.
pub fn status_outcome(os: Result<(), i32>) -> (r: Result<(), CredentialError>)
    ensures
        os is Ok ==> r is Ok,
        os matches Err(code) ==> r == Err::<(), CredentialError>(error_of_code(code)),
{
    match os {
        Ok(()) => Ok(()),
        Err(code) => Err(error_from_code(code)),
    }
}

/// Round trip: when the store hands back the fields of the record written for
/// a credential (the username up to its terminator, the blob byte for byte),
/// the credential read is the one written, username and secret alike.
pub proof fn lemma_write_then_read(
    rec: WriteRecord,
    raw: RawRecord,
    target: Seq<char>,
    username: Seq<char>,
    secret: Seq<char>,
    last_written_low: u32,
    last_written_high: u32,
)
    requires
        is_write_record(rec, target, username, secret, last_written_low, last_written_high),
        raw.username@ == rec.username@.drop_last(),
        raw.blob@ == rec.blob@,
    ensures
        decoded_username(raw) == username,
        decoded_secret(raw) == secret,
{
    assert(raw.username@ =~= utf16_of(username));
    lemma_decode_utf16_of(username);
    lemma_units_of_blob_of(utf16_of(secret));
    lemma_decode_utf16_of(secret);
}

/// Upsert: two writes under one target carry the same key to the store, and
/// a read after the second gives the second credential whole, with nothing
/// kept from the first.
pub proof fn lemma_second_write_replaces(
    first: WriteRecord,
    second: WriteRecord,
    raw: RawRecord,
    target: Seq<char>,
    username1: Seq<char>,
    secret1: Seq<char>,
    username2: Seq<char>,
    secret2: Seq<char>,
    low1: u32,
    high1: u32,
    low2: u32,
    high2: u32,
)
    requires
        is_write_record(first, target, username1, secret1, low1, high1),
        is_write_record(second, target, username2, secret2, low2, high2),
        raw.username@ == second.username@.drop_last(),
        raw.blob@ == second.blob@,
    ensures
        first.target@ == second.target@,
        decoded_username(raw) == username2,
        decoded_secret(raw) == secret2,
{
    lemma_write_then_read(second, raw, target, username2, secret2, low2, high2);
}

} // verus!
