use ntdb_unwrap::ntqq::android::decode_db_header;
use ntdb_unwrap::ntqq::{DBDecryptInfo, Platform, UserDBFile};
use ntdb_unwrap::util::{ascii_string, decimal, hex_u32, hex_u64, md5_hex};

fn header(rand: &[u8]) -> Vec<u8> {
    let mut bytes = vec![0u8; 16];
    bytes.extend_from_slice(b"SQLite header 3\0QQ_NT DB\0");
    bytes.extend_from_slice(rand);
    bytes.push(0);
    bytes.resize(1024, 0);
    bytes
}

#[test]
fn md5_hex_of_known_texts() {
    assert_eq!(md5_hex(b""), "d41d8cd98f00b204e9800998ecf8427e");
    assert_eq!(md5_hex(b"abc"), "900150983cd24fb0d6963f7d28e17f72");
    assert_eq!(
        md5_hex(b"The quick brown fox jumps over the lazy dog"),
        "9e107d9d372bb6826bd81d3542a419d6"
    );
}

#[test]
fn key_is_derived_from_uid_and_rand() {
    let info = decode_db_header("u_abcdefgh", &header(b"6tPaJ9GP")).expect("a key");
    let mut salted = md5_hex(b"u_abcdefgh").into_bytes();
    salted.extend_from_slice(b"6tPaJ9GP");
    assert_eq!(info.key, md5_hex(&salted));
    assert_eq!(info.key.len(), 32);
    assert!(info.key.bytes().all(|b| b.is_ascii_digit() || (b'a'..=b'f').contains(&b)));
    assert!(info.cipher_hmac_algorithm.is_none());
    // the uid counts
    let other = decode_db_header("u_abcdefgi", &header(b"6tPaJ9GP")).expect("a key");
    assert_ne!(other.key, info.key);
}

#[test]
fn key_for_a_fixed_header() {
    let inner = md5_hex(b"u_1");
    assert_eq!(inner.len(), 32);
    let info = decode_db_header("u_1", &header(b"abcdefgh")).expect("a key");
    assert_eq!(info.key, md5_hex(format!("{}abcdefgh", inner).as_bytes()));
}

#[test]
fn rand_needs_eight_printable_characters() {
    assert!(decode_db_header("u", &header(b"1234567")).is_none());
    assert!(decode_db_header("u", &header(b"12345678")).is_some());
    assert!(decode_db_header("u", &header(b"123 5678")).is_none());
    let long = decode_db_header("u", &header(b"0123456789abcdefghij")).expect("a key");
    let mut salted = md5_hex(b"u").into_bytes();
    salted.extend_from_slice(b"0123456789abcdefghij");
    assert_eq!(long.key, md5_hex(&salted));
}

#[test]
fn short_run_is_dropped_and_the_next_one_counts() {
    let mut bytes = b"QQNT_DB?".to_vec();
    bytes.extend_from_slice(b"short\0");
    bytes.extend_from_slice(b"longenough\0");
    let info = decode_db_header("u", &bytes).expect("a key");
    let mut salted = md5_hex(b"u").into_bytes();
    salted.extend_from_slice(b"longenough");
    assert_eq!(info.key, md5_hex(&salted));
}

#[test]
fn header_without_the_markers_has_no_key() {
    assert!(decode_db_header("u", &[]).is_none());
    assert!(decode_db_header("u", &vec![0x41; 1024]).is_none());
    assert!(decode_db_header("u", b"QQNT                 12345678\0").is_none());
    assert!(decode_db_header("u", b"DB?12345678\0").is_none());
}

#[test]
fn run_that_meets_the_end_has_no_key() {
    assert!(decode_db_header("u", b"QQNT_DB?12345678").is_none());
    assert!(decode_db_header("u", b"QQNT_DB?12345678\0").is_some());
}

#[test]
fn letters_of_the_first_marker_may_lie_apart() {
    let info = decode_db_header("u", b"Q..Q..N..T.DB.12345678\n").expect("a key");
    let mut salted = md5_hex(b"u").into_bytes();
    salted.extend_from_slice(b"12345678");
    assert_eq!(info.key, md5_hex(&salted));
}

#[test]
fn letters_of_the_second_marker_lie_together() {
    assert!(decode_db_header("u", b"QQNT_D.B_12345678\0").is_none());
    // the byte after a broken start is not looked at again
    assert!(decode_db_header("u", b"QQNT_DDB_12345678\0").is_none());
    assert!(decode_db_header("u", b"QQNT_D.DB_12345678\0").is_some());
}

#[test]
fn byte_after_each_marker_is_skipped() {
    // the byte that follows `QQNT` is not part of `DB`
    assert!(decode_db_header("u", b"QQNTDB_12345678\0").is_none());
    assert!(decode_db_header("u", b"QQNTDDB_12345678\0").is_some());
    // the byte that follows `DB` is not part of the run
    let info = decode_db_header("u", b"QQNT_DB12345678\0abcdefgh\0").expect("a key");
    let mut salted = md5_hex(b"u").into_bytes();
    salted.extend_from_slice(b"abcdefgh");
    assert_eq!(info.key, md5_hex(&salted));
}

#[test]
fn pragma_statements_are_written_out() {
    let info = DBDecryptInfo {
        key: "0123456789abcdef".to_string(),
        cipher_hmac_algorithm: Some("HMAC_SHA1".to_string()),
    };
    assert_eq!(
        info.display_pragma_stmts().to_string().expect("statements"),
        "PRAGMA key = '0123456789abcdef';\n\
         PRAGMA cipher_page_size = 4096;\n\
         PRAGMA kdf_iter = 4000;\n\
         PRAGMA cipher_hmac_algorithm = HMAC_SHA1;\n\
         PRAGMA cipher_default_kdf_algorithm = PBKDF2_HMAC_SHA512;\n\
         PRAGMA cipher = 'aes-256-cbc';\n"
    );
}

#[test]
fn pragma_statements_need_the_algorithm() {
    let info = DBDecryptInfo { key: "k".to_string(), cipher_hmac_algorithm: None };
    assert!(info.display_pragma_stmts().to_string().is_none());
    assert!(DBDecryptInfo::default().display_pragma_stmts().to_string().is_none());
}

#[test]
fn plain_types_hold_what_they_are_given() {
    let file = UserDBFile::default();
    assert!(file.uid.is_none() && file.uin.is_none());
    assert_ne!(Platform::Android, Platform::Linux);
    assert_eq!(ascii_string(b"key 1~"), "key 1~");
    assert_eq!(hex_u32(0), "00000000");
    assert_eq!(hex_u32(0xdead_beef), "deadbeef");
    assert_eq!(hex_u32(u32::MAX), "ffffffff");
    assert_eq!(hex_u32(0x0123_4567), "01234567");
    assert_eq!(hex_u64(0x0123_4567_89ab_cdef), "0123456789abcdef");
    assert_eq!(hex_u64(0), "0000000000000000");
}

#[test]
fn numbers_are_written_in_decimal() {
    for value in [0u64, 1, 9, 10, 11, 99, 100, 101, 1234567890, u64::MAX, u64::MAX - 1, 10_000_000_000_000_000_000] {
        assert_eq!(decimal(value), value.to_string());
    }
}

#[test]
fn account_is_written_with_what_is_known() {
    let mut file = UserDBFile::default();
    assert_eq!(file.account(), "unknown_uin(unknown_uid)");
    file.uin = Some(10001);
    assert_eq!(file.account(), "10001(unknown_uid)");
    file.uid = Some("u_AbCdEf".to_string());
    assert_eq!(file.account(), "10001(u_AbCdEf)");
    file.uin = None;
    assert_eq!(file.account(), "unknown_uin(u_AbCdEf)");
    file.uin = Some(0);
    assert_eq!(file.account(), "0(u_AbCdEf)");
}
