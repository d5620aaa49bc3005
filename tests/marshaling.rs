use wincredentials::blob::{blob_from_units, units_from_blob};
use wincredentials::credential::{
    build_write_record, decode_credential, encode_target, error_from_code, read_outcome,
    status_outcome, Credential, CredentialError, RawRecord, WriteRecord, CRED_NO_FLAGS,
    CRED_PERSIST_LOCAL_MACHINE, CRED_TYPE_GENERIC, NOT_FOUND_CODE,
};
use wincredentials::text::{contains_nul, decode_units, encode_nul_terminated};

const ACCESS_DENIED_CODE: i32 = -2147024891;

fn cred(username: &str, secret: &str) -> Credential {
    Credential {
        username: username.to_owned(),
        secret: secret.to_owned(),
    }
}

/// What the store hands back for a record it kept: the username up to its
/// terminator and the blob's bytes.
fn stored(rec: &WriteRecord) -> RawRecord {
    let n = rec.username.len() - 1;
    RawRecord {
        username: rec.username[..n].to_vec(),
        blob: rec.blob[..rec.blob_size as usize].to_vec(),
    }
}

#[test]
fn non_ascii_secret_round_trips_with_exact_length() {
    let rec = build_write_record("T1", &cred("alice", "p@ss\u{e9}"), 0, 0).unwrap();
    assert_eq!(rec.target, vec![84u16, 49, 0]);
    assert_eq!(rec.blob_size, 10);
    assert_eq!(rec.blob, vec![0x70u8, 0, 0x40, 0, 0x73, 0, 0x73, 0, 0xe9, 0]);
    let back = decode_credential(stored(&rec));
    assert_eq!(back.username, "alice");
    assert_eq!(back.secret, "p@ss\u{e9}");
}

#[test]
fn empty_secret_round_trips() {
    let rec = build_write_record("T1", &cred("alice", ""), 0, 0).unwrap();
    assert_eq!(rec.blob_size, 0);
    assert!(rec.blob.is_empty());
    let back = decode_credential(stored(&rec));
    assert_eq!(back.username, "alice");
    assert_eq!(back.secret, "");
}

#[test]
fn odd_length_secret_round_trips() {
    let rec = build_write_record("WINCREDENTIALS_RS_TEST_4", &cred("testuser", "testy"), 7, 9)
        .unwrap();
    assert_eq!(rec.blob_size, 10);
    assert_eq!(rec.last_written_low, 7);
    assert_eq!(rec.last_written_high, 9);
    let back = decode_credential(stored(&rec));
    assert_eq!(back.username, "testuser");
    assert_eq!(back.secret, "testy");
}

#[test]
fn astral_character_uses_a_surrogate_pair() {
    let rec = build_write_record("k", &cred("\u{1F511}", "a\u{1F511}"), 0, 0).unwrap();
    assert_eq!(rec.username, vec![0xD83Du16, 0xDD11, 0]);
    assert_eq!(rec.blob, vec![0x61u8, 0, 0x3D, 0xD8, 0x11, 0xDD]);
    let back = decode_credential(stored(&rec));
    assert_eq!(back.username, "\u{1F511}");
    assert_eq!(back.secret, "a\u{1F511}");
}

#[test]
fn record_has_fixed_type_scope_and_flags() {
    let rec = build_write_record("T", &cred("u", "s"), 0, 0).unwrap();
    assert_eq!(rec.flags, CRED_NO_FLAGS);
    assert_eq!(rec.cred_type, CRED_TYPE_GENERIC);
    assert_eq!(rec.persist, CRED_PERSIST_LOCAL_MACHINE);
    assert_eq!(rec.cred_type, 1);
    assert_eq!(rec.persist, 2);
}

#[test]
fn second_write_replaces_the_first() {
    let first = build_write_record("T2", &cred("alice", "one"), 0, 0).unwrap();
    let second = build_write_record("T2", &cred("bob", "two!"), 0, 0).unwrap();
    assert_eq!(first.target, second.target);
    let back = decode_credential(stored(&second));
    assert_eq!(back.username, "bob");
    assert_eq!(back.secret, "two!");
}

#[test]
fn nul_in_any_text_is_an_encoding_error() {
    let e = CredentialError::EncodingError;
    assert_eq!(build_write_record("a\0b", &cred("u", "s"), 0, 0).unwrap_err(), e);
    assert_eq!(build_write_record("t", &cred("u\0", "s"), 0, 0).unwrap_err(), e);
    assert_eq!(build_write_record("t", &cred("u", "\0s"), 0, 0).unwrap_err(), e);
    assert_eq!(encode_target("ab\0").unwrap_err(), e);
    assert!(encode_nul_terminated("x\0").is_none());
}

#[test]
fn target_encodes_with_terminator() {
    assert_eq!(encode_target("T1").unwrap(), vec![84u16, 49, 0]);
    assert_eq!(encode_target("").unwrap(), vec![0u16]);
    assert_eq!(encode_nul_terminated("\u{e9}").unwrap(), vec![0xe9u16, 0]);
}

#[test]
fn contains_nul_finds_any_position() {
    assert!(!contains_nul(""));
    assert!(!contains_nul("abc"));
    assert!(contains_nul("\0"));
    assert!(contains_nul("ab\0"));
}

#[test]
fn read_of_absent_target_is_not_found() {
    let r = read_outcome(Err(NOT_FOUND_CODE));
    assert_eq!(r.unwrap_err(), CredentialError::NotFound);
}

#[test]
fn delete_of_absent_target_is_not_found() {
    assert_eq!(status_outcome(Err(NOT_FOUND_CODE)), Err(CredentialError::NotFound));
}

#[test]
fn other_failures_keep_their_code() {
    assert_eq!(error_from_code(ACCESS_DENIED_CODE), CredentialError::OsError(ACCESS_DENIED_CODE));
    assert_eq!(status_outcome(Err(5)), Err(CredentialError::OsError(5)));
    let r = read_outcome(Err(ACCESS_DENIED_CODE));
    assert_eq!(r.unwrap_err(), CredentialError::OsError(ACCESS_DENIED_CODE));
}

#[test]
fn successful_status_is_ok() {
    assert_eq!(status_outcome(Ok(())), Ok(()));
}

#[test]
fn read_outcome_decodes_the_record() {
    let raw = RawRecord {
        username: vec![0x61u16, 0x62],
        blob: vec![0x78u8, 0, 0xe9, 0],
    };
    let c = read_outcome(Ok(raw)).unwrap();
    assert_eq!(c.username, "ab");
    assert_eq!(c.secret, "x\u{e9}");
}

#[test]
fn lone_surrogates_decode_to_replacement() {
    assert_eq!(decode_units(vec![0xD800u16]), "\u{FFFD}");
    assert_eq!(decode_units(vec![0xD800u16, 0x61]), "\u{FFFD}a");
    assert_eq!(decode_units(vec![0xDC00u16, 0xD800]), "\u{FFFD}\u{FFFD}");
    assert_eq!(decode_units(vec![0x68u16, 0x69]), "hi");
}

#[test]
fn blob_bytes_are_low_byte_first() {
    assert_eq!(blob_from_units(&vec![0x1234u16, 0x00ff]), vec![0x34u8, 0x12, 0xff, 0x00]);
    assert_eq!(units_from_blob(&vec![0x34u8, 0x12, 0xff, 0x00]), vec![0x1234u16, 0x00ff]);
}

#[test]
fn odd_trailing_blob_byte_is_ignored() {
    assert_eq!(units_from_blob(&vec![0x61u8, 0, 0x62]), vec![0x61u16]);
    let c = decode_credential(RawRecord {
        username: vec![],
        blob: vec![0x61u8, 0, 0x62],
    });
    assert_eq!(c.username, "");
    assert_eq!(c.secret, "a");
}
