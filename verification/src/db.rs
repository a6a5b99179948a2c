//! Opening the database once the key is known.
//!
//! The file of the application begins with a header of its own, and the database proper
//! follows it. The key opens the database under one of two HMAC algorithms, and which one
//! is found by trying.

pub mod model;

use crate::ntqq::DBDecryptInfo;
use vstd::prelude::*;
use vstd::string::StringExecFns;

verus! {

/// Length of the header that the application puts ahead of the database.
pub const NTQQ_HEADER_SIZE: u64 = 1024;

/// The eight bytes `QQ_NT DB`, which the header of the application holds at byte 32.
pub const NT_QQ_DB_PAT: [u8; 8] = [0x51, 0x51, 0x5f, 0x4e, 0x54, 0x20, 0x44, 0x42];

/// Whether the beginning of a file is the header of the application, as far as that can be
/// told: `None` where the bytes end before byte 40.
pub open spec fn spec_match_ntqq_db_header(buf: Seq<u8>) -> Option<bool> {
    if buf.len() >= 40 {
        Some(buf.subrange(32, 40) == NT_QQ_DB_PAT@)
    } else {
        None
    }
}

/// Tells whether the beginning of a file is the header of the application.
pub fn match_ntqq_db_header(buf: &[u8]) -> (matched: Option<bool>)
    ensures
        matched == spec_match_ntqq_db_header(buf@),
{
    if buf.len() < 40 {
        return None;
    }
    let mut i: usize = 0;
    while i < 8
        invariant
            0 <= i <= 8,
            buf.len() >= 40,
            forall|j: int| 0 <= j < i ==> buf[32 + j] == NT_QQ_DB_PAT[j],
        decreases 8 - i,
    {
        if buf[32 + i] != NT_QQ_DB_PAT[i] {
            assert(buf@.subrange(32, 40)[i as int] == buf[32 + i]);
            return Some(false);
        }
        i += 1;
    }
    assert(buf@.subrange(32, 40) =~= NT_QQ_DB_PAT@);
    Some(true)
}

/// Where the database begins in a file: behind the header of the application where the
/// file begins with one, and at the beginning of the file else.
pub fn database_offset(buf: &[u8]) -> (offset: u64)
    ensures
        offset == if spec_match_ntqq_db_header(buf@) == Some(true) {
            NTQQ_HEADER_SIZE
        } else {
            0
        },
{
    match match_ntqq_db_header(buf) {
        Some(true) => NTQQ_HEADER_SIZE,
        _ => 0,
    }
}

/// The HMAC algorithms to try for a key, in this order: the one that is named, or
/// `HMAC_SHA256` and then `HMAC_SHA1` where none is.
pub open spec fn spec_hmac_algorithms(info: DBDecryptInfo) -> Seq<Seq<char>> {
    match info.cipher_hmac_algorithm {
        Some(algorithm) => seq![algorithm@],
        None => seq!["HMAC_SHA256"@, "HMAC_SHA1"@],
    }
}

/// The HMAC algorithms to try for a key, in the order in which they are tried.
pub fn hmac_algorithms(info: &DBDecryptInfo) -> (algorithms: Vec<String>)
    ensures
        algorithms.len() == spec_hmac_algorithms(*info).len(),
        forall|i: int|
            0 <= i < algorithms.len() ==> (#[trigger] algorithms[i])@ == spec_hmac_algorithms(
                *info,
            )[i],
{
    let mut algorithms: Vec<String> = Vec::new();
    match &info.cipher_hmac_algorithm {
        Some(algorithm) => {
            algorithms.push(algorithm.clone());
        },
        None => {
            algorithms.push(String::from_str("HMAC_SHA256"));
            algorithms.push(String::from_str("HMAC_SHA1"));
        },
    }
    algorithms
}

/// The statements that copy an opened database to a plain one in `file`.
pub open spec fn spec_export_stmts(file: Seq<char>) -> Seq<char> {
    "ATTACH DATABASE '"@ + file + "' AS plain KEY ''; \n        SELECT sqlcipher_export('plain');\n        DETACH DATABASE plain;"@
}

/// Writes out the statements that copy an opened database to a plain one in `file`.
pub fn export_stmts(file: &str) -> (stmts: String)
    ensures
        stmts@ == spec_export_stmts(file@),
{
    let mut stmts = String::from_str("ATTACH DATABASE '");
    stmts.append(file);
    stmts.append(
        "' AS plain KEY ''; \n        SELECT sqlcipher_export('plain');\n        DETACH DATABASE plain;",
    );
    stmts
}

} // verus!
