//! The key of a database written by NT QQ on Android.
//!
//! The file begins with a header of the application itself, ahead of the database proper.
//! The header carries a random printable string, and the key is derived from it and the
//! account's uid.

use crate::ntqq::DBDecryptInfo;
use crate::util::{
    all_lower_hex, first_index_of, first_occurrence, lemma_boundary_after_ascii, lemma_first_occurrence_unique,
    md5_hex, occurs_at, parse_u64, spec_md5_hex, spec_parse_u64,
};
use vstd::prelude::*;
use vstd::slice::slice_to_vec;
use vstd::string::{StringExecFns, StringSliceAdditionalSpecFns};
use vstd::utf8::{encode_utf8, is_char_boundary, valid_utf8};

verus! {

/// What the scan over the header is looking for.
#[derive(Clone, Copy, Debug, PartialEq, Eq, Structural)]
pub enum Phase {
    /// The letters `QQNT`, in this order, with anything between them.
    MatchingQqnt,
    /// The letters `DB`, one right after the other.
    MatchingDb,
    /// A run of at least eight printable characters.
    ReadingRand,
}

/// State of the scan: the phase and what the phase has collected so far.
pub struct Scan {
    pub phase: Phase,
    pub window: Seq<u8>,
}

/// Result of feeding one byte to the scan.
pub enum Fed {
    /// The scan goes on in this state.
    Goes(Scan),
    /// The scan is over: the random string was read.
    Done(Seq<u8>),
}

/// Whether the byte is a printable ASCII character other than the space.
pub open spec fn is_graphic(byte: u8) -> bool {
    0x21 <= byte <= 0x7e
}

/// The letters `QQNT`.
pub open spec fn qqnt() -> Seq<u8> {
    seq![0x51u8, 0x51u8, 0x4eu8, 0x54u8]
}

/// The letters `DB`.
pub open spec fn db() -> Seq<u8> {
    seq![0x44u8, 0x42u8]
}

/// Feeds one byte to the scan.
///
/// A phase that has collected all it looks for hands over to the next phase on the
/// following byte, whatever that byte is, and the next phase starts with an empty window.
/// A byte that does not fit leaves the window of the first phase as it is, and empties the
/// window of the other two.
pub open spec fn feed(scan: Scan, byte: u8) -> Fed {
    match scan.phase {
        Phase::MatchingQqnt => if scan.window.len() >= 4 {
            Fed::Goes(Scan { phase: Phase::MatchingDb, window: seq![] })
        } else if qqnt()[scan.window.len() as int] == byte {
            Fed::Goes(Scan { phase: Phase::MatchingQqnt, window: scan.window.push(byte) })
        } else {
            Fed::Goes(scan)
        },
        Phase::MatchingDb => if scan.window.len() >= 2 {
            Fed::Goes(Scan { phase: Phase::ReadingRand, window: seq![] })
        } else if db()[scan.window.len() as int] == byte {
            Fed::Goes(Scan { phase: Phase::MatchingDb, window: scan.window.push(byte) })
        } else {
            Fed::Goes(Scan { phase: Phase::MatchingDb, window: seq![] })
        },
        Phase::ReadingRand => if is_graphic(byte) {
            Fed::Goes(Scan { phase: Phase::ReadingRand, window: scan.window.push(byte) })
        } else if scan.window.len() >= 8 {
            Fed::Done(scan.window)
        } else {
            Fed::Goes(Scan { phase: Phase::ReadingRand, window: seq![] })
        },
    }
}

/// Runs the scan in state `scan` over `bytes[from..]`. A scan that reaches the end of the
/// bytes has found nothing, even in the middle of a run.
pub open spec fn scan_from(scan: Scan, bytes: Seq<u8>, from: int) -> Option<Seq<u8>>
    decreases bytes.len() - from,
{
    if from < 0 || from >= bytes.len() {
        None
    } else {
        match feed(scan, bytes[from]) {
            Fed::Goes(next) => scan_from(next, bytes, from + 1),
            Fed::Done(rand) => Some(rand),
        }
    }
}

/// The random string in the header `bytes`, if the scan finds one.
pub open spec fn header_rand(bytes: Seq<u8>) -> Option<Seq<u8>> {
    scan_from(Scan { phase: Phase::MatchingQqnt, window: seq![] }, bytes, 0)
}

/// Whether `bytes[start..end]` is a run that the scan accepts: eight printable characters
/// at least, and behind them a byte that is none.
pub open spec fn is_rand_run(bytes: Seq<u8>, start: int, end: int) -> bool {
    &&& 0 <= start
    &&& start + 8 <= end < bytes.len()
    &&& forall|i: int| start <= i < end ==> is_graphic(bytes[i])
    &&& !is_graphic(bytes[end])
}

/// Whether `rand` stands in `bytes` as a run that the scan accepts.
pub open spec fn stands_as_run(bytes: Seq<u8>, rand: Seq<u8>) -> bool {
    exists|start: int|
        is_rand_run(bytes, start, start + rand.len()) && rand == #[trigger] bytes.subrange(
            start,
            start + rand.len(),
        )
}

/// What a scan finds from a state on is such a run, where the window of a scan that reads
/// the random string is what stands right ahead of the next byte.
proof fn lemma_scan_finds_run(scan: Scan, bytes: Seq<u8>, from: int)
    requires
        0 <= from <= bytes.len(),
        scan.phase is ReadingRand ==> scan.window.len() <= from && scan.window
            == bytes.subrange(from - scan.window.len(), from) && forall|i: int|
            from - scan.window.len() <= i < from ==> is_graphic(bytes[i]),
    ensures
        scan_from(scan, bytes, from) matches Some(rand) ==> stands_as_run(bytes, rand),
    decreases bytes.len() - from,
{
    if from < bytes.len() {
        match feed(scan, bytes[from]) {
            Fed::Goes(next) => {
                if next.phase is ReadingRand && scan.phase is ReadingRand && is_graphic(
                    bytes[from],
                ) {
                    assert(next.window =~= bytes.subrange(from + 1 - next.window.len(), from + 1));
                }
                if next.phase is ReadingRand && next.window.len() == 0 {
                    assert(next.window =~= bytes.subrange(from + 1, from + 1));
                }
                lemma_scan_finds_run(next, bytes, from + 1);
                assert(scan_from(scan, bytes, from) == scan_from(next, bytes, from + 1));
            },
            Fed::Done(rand) => {
                let start = from - rand.len();
                assert(is_rand_run(bytes, start, start + rand.len()));
                assert(rand == bytes.subrange(start, start + rand.len()));
                assert(stands_as_run(bytes, rand));
                assert(scan_from(scan, bytes, from) == Some(rand));
            },
        }
    }
}

/// The random string that the scan finds stands in the header as a run of eight printable
/// characters at least, with a byte that is none behind it.
pub proof fn lemma_header_rand_is_run(bytes: Seq<u8>)
    ensures
        header_rand(bytes) matches Some(rand) ==> stands_as_run(bytes, rand),
{
    lemma_scan_finds_run(Scan { phase: Phase::MatchingQqnt, window: seq![] }, bytes, 0);
}

/// The key for an account and the random string of its database: the MD5 digest, in
/// hexadecimal, of the hexadecimal MD5 digest of the uid followed by the random string.
pub open spec fn derived_key(uid: Seq<char>, rand: Seq<u8>) -> Seq<char> {
    spec_md5_hex(encode_utf8(spec_md5_hex(encode_utf8(uid))) + rand)
}

/// Decodes the header of a database file and derives the key from it.
///
/// `bytes` is the beginning of the file, normally its first 1024 bytes, and `uid` the uid of
/// the account. The key has 32 lower-case hexadecimal digits, the random string that it is
/// derived from stands in the header as a run of eight printable characters at least, and
/// the HMAC algorithm is left open.
pub fn decode_db_header(uid: &str, bytes: &[u8]) -> (info: Option<DBDecryptInfo>)
    ensures
        match header_rand(bytes@) {
            Some(rand) => info matches Some(d) && d.key@ == derived_key(uid@, rand)
                && d.cipher_hmac_algorithm is None && d.key@.len() == 32 && all_lower_hex(d.key@)
                && stands_as_run(bytes@, rand),
            None => info is None,
        },
{
    let mut phase = Phase::MatchingQqnt;
    let mut window: Vec<u8> = Vec::new();
    let mut i: usize = 0;
    while i < bytes.len()
        invariant
            0 <= i <= bytes.len(),
            header_rand(bytes@) == scan_from(Scan { phase, window: window@ }, bytes@, i as int),
        decreases bytes.len() - i,
    {
        let byte = bytes[i];
        match phase {
            Phase::MatchingQqnt => {
                if window.len() >= 4 {
                    phase = Phase::MatchingDb;
                    window.clear();
                } else if expected_qqnt(window.len()) == byte {
                    window.push(byte);
                }
            },
            Phase::MatchingDb => {
                if window.len() >= 2 {
                    phase = Phase::ReadingRand;
                    window.clear();
                } else if expected_db(window.len()) == byte {
                    window.push(byte);
                } else {
                    window.clear();
                }
            },
            Phase::ReadingRand => {
                if 0x21 <= byte && byte <= 0x7e {
                    window.push(byte);
                } else if window.len() >= 8 {
                    let uid_hash = md5_hex(uid.as_bytes());
                    let mut salted = slice_to_vec(uid_hash.as_str().as_bytes());
                    salted.append(&mut window);
                    let key = md5_hex(salted.as_slice());
                    proof {
                        lemma_header_rand_is_run(bytes@);
                    }
                    return Some(DBDecryptInfo { key, cipher_hmac_algorithm: None });
                } else {
                    window.clear();
                }
            },
        }
        i += 1;
    }
    None
}

/// Letter `at` of `QQNT`.
fn expected_qqnt(at: usize) -> (letter: u8)
    requires
        at < 4,
    ensures
        letter == qqnt()[at as int],
{
    if at == 0 || at == 1 {
        0x51
    } else if at == 2 {
        0x4e
    } else {
        0x54
    }
}

/// Letter `at` of `DB`.
fn expected_db(at: usize) -> (letter: u8)
    requires
        at < 2,
    ensures
        letter == db()[at as int],
{
    if at == 0 {
        0x44
    } else {
        0x42
    }
}

/// What stands between uin and uid in the name of the file that marks an account: `###`.
pub open spec fn separator() -> Seq<u8> {
    seq![0x23u8, 0x23u8, 0x23u8]
}

/// The uin that the text ahead of the separator stands for: the number written there, and
/// zero where no number is written there.
pub open spec fn spec_uin(text: Seq<u8>) -> u64 {
    match spec_parse_u64(text) {
        Some(uin) => uin,
        None => 0,
    }
}

/// Index of the first separator in a file name.
fn find_separator(name: &[u8]) -> (found: Option<usize>)
    ensures
        match found {
            Some(at) => first_occurrence(name@, separator(), at as int),
            None => forall|at: int| !occurs_at(name@, separator(), at),
        },
{
    if name.len() < 3 {
        return None;
    }
    let mut i: usize = 0;
    while i <= name.len() - 3
        invariant
            0 <= i,
            3 <= name.len(),
            i <= name.len() - 2,
            forall|at: int| 0 <= at < i ==> !occurs_at(name@, separator(), at),
        decreases name.len() - i,
    {
        if name[i] == 0x23 && name[i + 1] == 0x23 && name[i + 2] == 0x23 {
            assert(name@.subrange(i as int, i + 3) =~= separator());
            return Some(i);
        }
        assert(!occurs_at(name@, separator(), i as int)) by {
            if occurs_at(name@, separator(), i as int) {
                let found = name@.subrange(i as int, i + 3);
                assert(found[0] == name@[i as int] && found[1] == name@[i + 1] && found[2]
                    == name@[i + 2]);
            }
        }
        i += 1;
    }
    None
}

/// Reads the account out of the name of a file in the uid directory.
///
/// The name is the uin, the separator `###` and the uid. A name without a separator is no
/// account. What stands ahead of the first separator is read as a number, and counts as
/// zero where it is none; everything behind that separator is the uid.
pub fn parse_uid_entry(file_name: &str) -> (account: Option<(u64, String)>)
    ensures
        match first_index_of(file_name.spec_bytes(), separator()) {
            Some(at) => account matches Some((uin, uid)) && uin == spec_uin(
                file_name.spec_bytes().subrange(0, at),
            ) && encode_utf8(uid@) == file_name.spec_bytes().subrange(
                at + 3,
                file_name.spec_bytes().len() as int,
            ),
            None => account is None,
        },
{
    broadcast use vstd::utf8::group_utf8_lib;

    let bytes = file_name.as_bytes();
    match find_separator(bytes) {
        None => None,
        Some(at) => {
            proof {
                let first = choose|first: int| first_occurrence(bytes@, separator(), first);
                lemma_first_occurrence_unique(bytes@, separator(), first, at as int);
                let found = bytes@.subrange(at as int, at + 3);
                assert(found[0] == 0x23 && bytes@[at as int] == found[0]);
                assert(valid_utf8(bytes@));
                vstd::utf8::is_char_boundary_iff_not_is_continuation_byte(bytes@, at as int);
                assert(is_char_boundary(bytes@, at as int));
            }
            let (head, rest) = file_name.split_at(at);
            proof {
                let tail = rest.spec_bytes();
                assert(valid_utf8(tail));
                let found = bytes@.subrange(at as int, at + 3);
                assert(tail[0] == found[0] && tail[1] == found[1] && tail[2] == found[2]);
                lemma_boundary_after_ascii(tail, 0);
                lemma_boundary_after_ascii(tail, 1);
                lemma_boundary_after_ascii(tail, 2);
            }
            let (_, uid) = rest.split_at(3);
            let uin = match parse_u64(head.as_bytes()) {
                Some(uin) => uin,
                None => 0,
            };
            assert(uid.spec_bytes() =~= bytes@.subrange(at + 3, bytes@.len() as int));
            Some((uin, String::from_str(uid)))
        },
    }
}

/// The directory that holds one file for each account, below the data directory of the
/// system.
pub open spec fn spec_uid_directory(data_dir: Seq<char>) -> Seq<char> {
    data_dir + "/user/0/com.tencent.mobileqq/files/uid"@
}

/// The directory that holds one file for each account, below the data directory of the
/// system.
pub fn uid_directory(data_dir: &str) -> (directory: String)
    ensures
        directory@ == spec_uid_directory(data_dir@),
{
    let mut directory = String::from_str(data_dir);
    directory.append("/user/0/com.tencent.mobileqq/files/uid");
    directory
}

/// The path of the message database of the account with this uid: the directory of the
/// account is named by the hexadecimal MD5 digest of the hexadecimal MD5 digest of the
/// uid followed by `nt_kernel`.
pub open spec fn spec_db_path(uid: Seq<char>) -> Seq<char> {
    "/data/user/0/com.tencent.mobileqq/databases/nt_db/nt_qq_"@ + spec_md5_hex(
        encode_utf8(spec_md5_hex(encode_utf8(uid))) + encode_utf8("nt_kernel"@),
    ) + "/nt_msg.db"@
}

/// The path of the message database of the account with this uid.
pub fn db_path(uid: &str) -> (path: String)
    ensures
        path@ == spec_db_path(uid@),
{
    let uid_hash = md5_hex(uid.as_bytes());
    let mut salted = slice_to_vec(uid_hash.as_str().as_bytes());
    let mut suffix = slice_to_vec("nt_kernel".as_bytes());
    salted.append(&mut suffix);
    let path_hash = md5_hex(salted.as_slice());
    let mut path = String::from_str("/data/user/0/com.tencent.mobileqq/databases/nt_db/nt_qq_");
    path.append(path_hash.as_str());
    path.append("/nt_msg.db");
    path
}

} // verus!
