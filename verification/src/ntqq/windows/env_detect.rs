//! Where the program is installed.

use crate::ntqq::windows::{Error, WindowsOperation};
use crate::util::{
    first_index_of, first_occurrence, lemma_boundary_after_ascii, lemma_boundary_at_ascii,
    lemma_first_occurrence_unique, occurs_at, parse_u64, spec_parse_u64,
};
use vstd::prelude::*;
use vstd::string::{StringExecFns, StringSliceAdditionalSpecFns};
use vstd::utf8::{encode_utf8, is_char_boundary, valid_utf8};

verus! {

/// An installation of the program.
#[derive(Debug)]
pub struct InstalledQQInfo {
    /// The directory that holds the executable.
    pub install_dir: std::path::PathBuf,
    /// The version in use, where it is known.
    pub version: Option<String>,
}

/// The error code with which the registry says that a key is not there.
pub const KEY_NOT_FOUND: i32 = 2;

/// How the search for the installation goes on after a registry key was to be opened.
pub enum RegistryStep {
    /// The key is there and names the installation.
    Found,
    /// The key is not there, and the next place is to be tried.
    TryNext,
    /// The registry cannot be read.
    Failed(Error),
}

/// Decides how the search for the installation goes on after a registry key was to be
/// opened: `opened` is `None` where the key was opened, and else the error code. A key that
/// is not there is no failure; any other error is.
pub fn registry_step(opened: Option<i32>, op: WindowsOperation) -> (step: RegistryStep)
    ensures
        step == match opened {
            None => RegistryStep::Found,
            Some(code) => if code == KEY_NOT_FOUND {
                RegistryStep::TryNext
            } else {
                RegistryStep::Failed(Error::WindowsOp { op, code, address: None })
            },
        },
{
    match opened {
        None => RegistryStep::Found,
        Some(code) => {
            if code == KEY_NOT_FOUND {
                RegistryStep::TryNext
            } else {
                RegistryStep::Failed(Error::WindowsOp { op, code, address: None })
            }
        },
    }
}

/// Reads the uin out of the name of a directory below the directory of the program in the
/// documents of the user: the directory of an account is named by the uin, as a decimal
/// number. A name that is no number is not the directory of an account.
pub fn parse_uin(directory_name: &str) -> (uin: Option<u64>)
    ensures
        uin == spec_parse_u64(directory_name.spec_bytes()),
{
    parse_u64(directory_name.as_bytes())
}

/// What names the version in use in the configuration of an installation:
/// `"curVersion":`.
pub const CUR_VERSION_KEY: [u8; 13] = [
    0x22, 0x63, 0x75, 0x72, 0x56, 0x65, 0x72, 0x73, 0x69, 0x6f, 0x6e, 0x22, 0x3a,
];

/// Whether the byte is ASCII white space.
pub open spec fn is_space(byte: u8) -> bool {
    byte == 0x20 || (0x09 <= byte <= 0x0d)
}

/// Whether the byte is a quotation mark or a comma.
pub open spec fn is_wrap(byte: u8) -> bool {
    byte == 0x22 || byte == 0x2c
}

/// Where the line begins that holds index `at`.
pub open spec fn line_start(bytes: Seq<u8>, at: int) -> int
    decreases at,
{
    if at <= 0 || at > bytes.len() || bytes[at - 1] == 0x0a {
        at
    } else {
        line_start(bytes, at - 1)
    }
}

/// Index of the first `byte` in `bytes[from..]`, or the length of `bytes` where there is
/// none.
pub open spec fn byte_from(bytes: Seq<u8>, byte: u8, from: int) -> int
    decreases bytes.len() - from,
{
    if from < 0 || from >= bytes.len() || bytes[from] == byte {
        from
    } else {
        byte_from(bytes, byte, from + 1)
    }
}

/// Where the piece of a line that lies behind its first colon begins and ends: it ends at
/// the next colon, or with the line.
pub open spec fn second_piece(bytes: Seq<u8>, at: int) -> (int, int) {
    let begin = line_start(bytes, at);
    let end = byte_from(bytes, 0x0a, at);
    let line = bytes.subrange(begin, end);
    let first = byte_from(line, 0x3a, 0);
    let second = byte_from(line, 0x3a, first + 1);
    (begin + first + 1, begin + second)
}

/// Index behind the white space at the beginning of `bytes[from..to]`.
pub open spec fn skip_spaces(bytes: Seq<u8>, from: int, to: int) -> int
    decreases to - from,
{
    if from >= to || from < 0 || from >= bytes.len() || !is_space(bytes[from]) {
        from
    } else {
        skip_spaces(bytes, from + 1, to)
    }
}

/// Index of the white space at the end of `bytes[from..to]`.
pub open spec fn drop_spaces(bytes: Seq<u8>, from: int, to: int) -> int
    decreases to - from,
{
    if from >= to || to > bytes.len() || to <= 0 || !is_space(bytes[to - 1]) {
        to
    } else {
        drop_spaces(bytes, from, to - 1)
    }
}

/// Index behind the quotation marks and commas at the beginning of `bytes[from..to]`.
pub open spec fn skip_wraps(bytes: Seq<u8>, from: int, to: int) -> int
    decreases to - from,
{
    if from >= to || from < 0 || from >= bytes.len() || !is_wrap(bytes[from]) {
        from
    } else {
        skip_wraps(bytes, from + 1, to)
    }
}

/// Index of the quotation marks and commas at the end of `bytes[from..to]`.
pub open spec fn drop_wraps(bytes: Seq<u8>, from: int, to: int) -> int
    decreases to - from,
{
    if from >= to || to > bytes.len() || to <= 0 || !is_wrap(bytes[to - 1]) {
        to
    } else {
        drop_wraps(bytes, from, to - 1)
    }
}

/// The version that a configuration names, as bytes: in the first line that holds the key,
/// the piece between the first colon and the next, without the white space around it and
/// then without the quotation marks and commas around it. `None` where no line holds the
/// key.
pub open spec fn spec_cur_version(config: Seq<u8>) -> Option<Seq<u8>> {
    match first_index_of(config, CUR_VERSION_KEY@) {
        None => None,
        Some(at) => {
            let (from, to) = second_piece(config, at);
            let from = skip_spaces(config, from, to);
            let to = drop_spaces(config, from, to);
            let from = skip_wraps(config, from, to);
            let to = drop_wraps(config, from, to);
            Some(config.subrange(from, to))
        },
    }
}

/// Index of the first occurrence of the key.
fn find_key(config: &[u8]) -> (found: Option<usize>)
    ensures
        match found {
            Some(at) => first_occurrence(config@, CUR_VERSION_KEY@, at as int),
            None => forall|at: int| !occurs_at(config@, CUR_VERSION_KEY@, at),
        },
{
    if config.len() < 13 {
        return None;
    }
    let mut i: usize = 0;
    while i <= config.len() - 13
        invariant
            13 <= config.len(),
            0 <= i <= config.len() - 12,
            forall|at: int| 0 <= at < i ==> !occurs_at(config@, CUR_VERSION_KEY@, at),
        decreases config.len() - i,
    {
        let mut j: usize = 0;
        while j < 13 && config[i + j] == CUR_VERSION_KEY[j]
            invariant
                0 <= j <= 13,
                i + 13 <= config.len(),
                forall|k: int| 0 <= k < j ==> config[i + k] == CUR_VERSION_KEY[k],
            decreases 13 - j,
        {
            j += 1;
        }
        if j == 13 {
            assert(config@.subrange(i as int, i + 13) =~= CUR_VERSION_KEY@);
            return Some(i);
        }
        assert(!occurs_at(config@, CUR_VERSION_KEY@, i as int)) by {
            if occurs_at(config@, CUR_VERSION_KEY@, i as int) {
                assert(config@.subrange(i as int, i + 13)[j as int] == config@[i + j]);
            }
        }
        i += 1;
    }
    None
}

/// Index of the first `byte` at or behind `from`.
fn find_byte(bytes: &[u8], byte: u8, from: usize) -> (found: usize)
    requires
        from <= bytes.len(),
    ensures
        found == byte_from(bytes@, byte, from as int),
        from <= found <= bytes.len(),
        found < bytes.len() ==> bytes[found as int] == byte,
{
    let mut i: usize = from;
    while i < bytes.len() && bytes[i] != byte
        invariant
            from <= i <= bytes.len(),
            byte_from(bytes@, byte, from as int) == byte_from(bytes@, byte, i as int),
        decreases bytes.len() - i,
    {
        i += 1;
    }
    i
}

/// Index at which the line that holds `at` begins.
fn find_line_start(bytes: &[u8], at: usize) -> (found: usize)
    requires
        at <= bytes.len(),
    ensures
        found == line_start(bytes@, at as int),
        found <= at,
        found > 0 ==> bytes[found - 1] == 0x0a,
{
    let mut i: usize = at;
    while i > 0 && bytes[i - 1] != 0x0a
        invariant
            0 <= i <= at <= bytes.len(),
            line_start(bytes@, at as int) == line_start(bytes@, i as int),
        decreases i,
    {
        i -= 1;
    }
    i
}

/// Whether the byte belongs to `kind`: white space where `kind` is set, quotation marks and
/// commas where it is not.
fn is_trimmed(byte: u8, spaces: bool) -> (trimmed: bool)
    ensures
        trimmed == if spaces {
            is_space(byte)
        } else {
            is_wrap(byte)
        },
{
    if spaces {
        byte == 0x20 || (0x09 <= byte && byte <= 0x0d)
    } else {
        byte == 0x22 || byte == 0x2c
    }
}

/// Narrows `bytes[from..to]` by what is to be trimmed at both ends.
fn trim(bytes: &[u8], from: usize, to: usize, spaces: bool) -> (narrowed: (usize, usize))
    requires
        from <= to <= bytes.len(),
    ensures
        from <= narrowed.0 <= narrowed.1 <= to,
        spaces ==> narrowed.0 == skip_spaces(bytes@, from as int, to as int) && narrowed.1
            == drop_spaces(bytes@, narrowed.0 as int, to as int),
        !spaces ==> narrowed.0 == skip_wraps(bytes@, from as int, to as int) && narrowed.1
            == drop_wraps(bytes@, narrowed.0 as int, to as int),
        narrowed.0 > from ==> bytes[narrowed.0 - 1] < 0x80,
        narrowed.1 < to ==> bytes[narrowed.1 as int] < 0x80,
{
    let mut begin: usize = from;
    while begin < to && is_trimmed(bytes[begin], spaces)
        invariant
            from <= begin <= to <= bytes.len(),
            spaces ==> skip_spaces(bytes@, from as int, to as int) == skip_spaces(
                bytes@,
                begin as int,
                to as int,
            ),
            !spaces ==> skip_wraps(bytes@, from as int, to as int) == skip_wraps(
                bytes@,
                begin as int,
                to as int,
            ),
            begin > from ==> bytes[begin - 1] < 0x80,
        decreases to - begin,
    {
        begin += 1;
    }
    let mut end: usize = to;
    while begin < end && is_trimmed(bytes[end - 1], spaces)
        invariant
            from <= begin <= end <= to <= bytes.len(),
            spaces ==> drop_spaces(bytes@, begin as int, to as int) == drop_spaces(
                bytes@,
                begin as int,
                end as int,
            ),
            !spaces ==> drop_wraps(bytes@, begin as int, to as int) == drop_wraps(
                bytes@,
                begin as int,
                end as int,
            ),
            end < to ==> bytes[end as int] < 0x80,
        decreases end - begin,
    {
        end -= 1;
    }
    (begin, end)
}

/// Reads the version in use out of the configuration of an installation.
///
/// The version stands in the first line that holds the key `"curVersion":`. Of that line
/// the piece between the first colon and the next is taken, and white space, and then
/// quotation marks and commas, are taken off both of its ends. A configuration without the
/// key names no version.
pub fn cur_version(config: &str) -> (version: Result<String, Error>)
    ensures
        match spec_cur_version(config.spec_bytes()) {
            Some(bytes) => version matches Ok(v) && encode_utf8(v@) == bytes,
            None => version matches Err(Error::LocateDocumentsDir),
        },
{
    broadcast use vstd::utf8::group_utf8_lib;

    let bytes = config.as_bytes();
    let at = match find_key(bytes) {
        Some(at) => at,
        None => {
            return Err(Error::LocateDocumentsDir);
        },
    };
    proof {
        let first = choose|first: int| first_occurrence(bytes@, CUR_VERSION_KEY@, first);
        lemma_first_occurrence_unique(bytes@, CUR_VERSION_KEY@, first, at as int);
    }
    let begin = find_line_start(bytes, at);
    let end = find_byte(bytes, 0x0a, at);
    let line = vstd::slice::slice_subrange(bytes, begin, end);
    let first = find_byte(line, 0x3a, 0);
    let second = if first < line.len() {
        find_byte(line, 0x3a, first + 1)
    } else {
        first
    };
    let piece_begin = if first < line.len() {
        begin + first + 1
    } else {
        end
    };
    let piece_end = begin + second;
    proof {
        // the key ends in a colon, and the key lies in the line
        let key = bytes@.subrange(at as int, at + 13);
        assert(key[12] == 0x3a && key[12] == bytes@[at + 12]);
        assert forall|i: int| at <= i < at + 13 implies bytes@[i] != 0x0a by {
            assert(key[i - at] == bytes@[i]);
        }
        lemma_byte_from_skips(bytes@, 0x0a, at as int, at + 13);
        assert(line@[at + 12 - begin] == 0x3a);
        lemma_byte_from_bounds(line@, 0x3a, 0, at + 12 - begin);
        assert(first < line.len());
        assert(bytes@[begin + first] == line@[first as int]);
        assert(second < line.len() ==> bytes@[begin + second] == line@[second as int]);
    }
    let (from, to) = trim(bytes, piece_begin, piece_end, true);
    let (from, to) = trim(bytes, from, to, false);
    proof {
        assert(valid_utf8(bytes@));
        // the version ends at the end of the text or ahead of an ASCII character
        if to < bytes@.len() {
            assert(bytes@[to as int] < 0x80);
            lemma_boundary_at_ascii(bytes@, to as int);
        }
        assert(is_char_boundary(bytes@, to as int));
        // and it begins behind an ASCII character
        assert(bytes@[from - 1] < 0x80);
        lemma_boundary_at_ascii(bytes@, from - 1);
        lemma_boundary_after_ascii(bytes@, from - 1);
    }
    let (front, _) = config.split_at(to);
    proof {
        let head = front.spec_bytes();
        assert(valid_utf8(head));
        if from < to {
            assert(head[from - 1] == bytes@[from - 1]);
            lemma_boundary_at_ascii(head, from - 1);
            lemma_boundary_after_ascii(head, from - 1);
        }
        assert(is_char_boundary(head, from as int));
    }
    let (_, version) = front.split_at(from);
    assert(version.spec_bytes() =~= bytes@.subrange(from as int, to as int));
    Ok(String::from_str(version))
}

/// The first `byte` at or behind `from` is not behind an index at which `byte` stands.
proof fn lemma_byte_from_bounds(bytes: Seq<u8>, byte: u8, from: int, at: int)
    requires
        0 <= from <= at < bytes.len(),
        bytes[at] == byte,
    ensures
        from <= byte_from(bytes, byte, from) <= at,
    decreases at - from,
{
    if bytes[from] != byte {
        lemma_byte_from_bounds(bytes, byte, from + 1, at);
    }
}

/// The first `byte` at or behind `from` is not among bytes that are all different from it.
proof fn lemma_byte_from_skips(bytes: Seq<u8>, byte: u8, from: int, to: int)
    requires
        0 <= from <= to <= bytes.len(),
        forall|i: int| from <= i < to ==> bytes[i] != byte,
    ensures
        to <= byte_from(bytes, byte, from) <= bytes.len(),
    decreases bytes.len() - from,
{
    if from < bytes.len() && bytes[from] != byte {
        if from < to {
            lemma_byte_from_skips(bytes, byte, from + 1, to);
        } else {
            lemma_byte_from_skips(bytes, byte, from + 1, from + 1);
        }
    }
}

/// Picks the version of an installation that does not say which of its versions is in use:
/// the one below its versions directory, where there is one alone.
pub fn sole_version(mut versions: Vec<String>) -> (version: Result<String, Error>)
    ensures
        match version {
            Ok(v) => versions.len() == 1 && v == versions[0],
            Err(e) => versions.len() != 1 && e matches Error::LocateDocumentsDir,
        },
{
    if versions.len() == 1 {
        match versions.pop() {
            Some(version) => Ok(version),
            None => Err(Error::LocateDocumentsDir),
        }
    } else {
        Err(Error::LocateDocumentsDir)
    }
}

} // verus!
