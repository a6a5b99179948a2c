//! Function boundaries from the exception directory of a 64-bit image.
//!
//! The directory is an array of 12-byte records, one per function: begin address, end
//! address and the address of the unwind data, each a little-endian `u32` relative to the
//! image base. The linker emits the records ordered by begin address, so the function that
//! holds a given offset is found by bisection.

use vstd::prelude::*;

verus! {

/// Bytes taken by one record of the exception directory.
pub const RUNTIME_FUNCTION_SIZE: usize = 12;

/// The `[begin, end)` range of one function, relative to the image base.
#[derive(Clone, Copy, Debug, PartialEq, Eq, Structural)]
pub struct FunctionRange {
    pub begin: u32,
    pub end: u32,
}

impl FunctionRange {
    /// Whether `offset` lies inside the range.
    pub open spec fn encloses(self, offset: u64) -> bool {
        self.begin <= offset < self.end
    }
}

/// The little-endian `u32` stored in `bytes` at index `at`.
pub open spec fn spec_u32_le(bytes: Seq<u8>, at: int) -> int {
    bytes[at] + bytes[at + 1] * 0x100 + bytes[at + 2] * 0x1_0000 + bytes[at + 3] * 0x100_0000
}

/// The records of an exception directory. Trailing bytes that do not fill a record are not
/// part of the table.
pub open spec fn function_table(data: Seq<u8>) -> Seq<FunctionRange> {
    Seq::new(
        (data.len() / 12) as nat,
        |i: int|
            FunctionRange {
                begin: spec_u32_le(data, 12 * i) as u32,
                end: spec_u32_le(data, 12 * i + 4) as u32,
            },
    )
}

/// A table as the linker writes it: no range is reversed, and each range ends before the
/// next one begins.
pub open spec fn sorted_disjoint(table: Seq<FunctionRange>) -> bool {
    &&& forall|i: int| 0 <= i < table.len() ==> (#[trigger] table[i]).begin <= table[i].end
    &&& forall|i: int, j: int|
        0 <= i < j < table.len() ==> (#[trigger] table[i]).end <= (#[trigger] table[j]).begin
}

/// Whether some range of the table encloses `offset`.
pub open spec fn covered(table: Seq<FunctionRange>, offset: u64) -> bool {
    exists|i: int| 0 <= i < table.len() && (#[trigger] table[i]).encloses(offset)
}

/// Bisection over `table[lo..hi]`: the index of the range at which the search for `offset`
/// stops, if it stops at one.
pub open spec fn bisect(table: Seq<FunctionRange>, lo: int, hi: int, offset: u64) -> Option<int>
    decreases hi - lo,
{
    if lo >= hi {
        None
    } else {
        let mid = lo + (hi - lo) / 2;
        if offset < table[mid].begin {
            bisect(table, lo, mid, offset)
        } else if offset >= table[mid].end {
            bisect(table, mid + 1, hi, offset)
        } else {
            Some(mid)
        }
    }
}

/// The begin address that the resolver reports for `offset` in the directory `data`.
pub open spec fn resolved_begin(data: Seq<u8>, offset: u64) -> Option<u32> {
    let table = function_table(data);
    match bisect(table, 0, table.len() as int, offset) {
        Some(i) => Some(table[i].begin),
        None => None,
    }
}

/// Bisection only ever stops at a range that encloses the offset.
pub proof fn lemma_bisect_sound(table: Seq<FunctionRange>, lo: int, hi: int, offset: u64)
    requires
        0 <= lo <= hi <= table.len(),
    ensures
        bisect(table, lo, hi, offset) matches Some(i) ==> lo <= i < hi && table[i].encloses(
            offset,
        ),
    decreases hi - lo,
{
    if lo < hi {
        let mid = lo + (hi - lo) / 2;
        if offset < table[mid].begin {
            lemma_bisect_sound(table, lo, mid, offset);
        } else if offset >= table[mid].end {
            lemma_bisect_sound(table, mid + 1, hi, offset);
        }
    }
}

/// On a sorted table of disjoint ranges bisection finds the range that encloses the offset
/// whenever one of `table[lo..hi]` does.
pub proof fn lemma_bisect_complete(
    table: Seq<FunctionRange>,
    lo: int,
    hi: int,
    offset: u64,
    k: int,
)
    requires
        sorted_disjoint(table),
        0 <= lo <= k < hi <= table.len(),
        table[k].encloses(offset),
    ensures
        bisect(table, lo, hi, offset) == Some(k),
    decreases hi - lo,
{
    let mid = lo + (hi - lo) / 2;
    if offset < table[mid].begin {
        assert(k < mid) by {
            if k > mid {
                assert(table[mid].end <= table[k].begin);
            }
        }
        lemma_bisect_complete(table, lo, mid, offset, k);
    } else if offset >= table[mid].end {
        assert(k > mid) by {
            if k < mid {
                assert(table[k].end <= table[mid].begin);
            }
        }
        lemma_bisect_complete(table, mid + 1, hi, offset, k);
    } else {
        if k < mid {
            assert(table[k].end <= table[mid].begin);
        } else if k > mid {
            assert(table[mid].end <= table[k].begin);
        }
    }
}

/// Resolver correctness. For a sorted table of disjoint ranges: an offset inside one of the
/// ranges resolves to the begin address of that range, and an offset that no range covers
/// does not resolve.
pub proof fn lemma_resolver_correct(data: Seq<u8>, offset: u64)
    requires
        sorted_disjoint(function_table(data)),
    ensures
        forall|k: int|
            0 <= k < function_table(data).len() && (#[trigger] function_table(data)[k]).encloses(
                offset,
            ) ==> resolved_begin(data, offset) == Some(function_table(data)[k].begin),
        !covered(function_table(data), offset) ==> resolved_begin(data, offset) is None,
{
    let table = function_table(data);
    assert forall|k: int| 0 <= k < table.len() && (#[trigger] table[k]).encloses(offset) implies
        resolved_begin(data, offset) == Some(table[k].begin) by {
        lemma_bisect_complete(table, 0, table.len() as int, offset, k);
    }
    lemma_bisect_sound(table, 0, table.len() as int, offset);
}

/// Reads the little-endian `u32` at `at`.
pub fn read_u32_le(data: &[u8], at: usize) -> (value: u32)
    requires
        at + 4 <= data.len(),
    ensures
        value == spec_u32_le(data@, at as int),
{
    let b0: u32 = data[at] as u32;
    let b1: u32 = data[at + 1] as u32;
    let b2: u32 = data[at + 2] as u32;
    let b3: u32 = data[at + 3] as u32;
    b0 + b1 * 0x100 + b2 * 0x1_0000 + b3 * 0x100_0000
}

/// Number of whole records in the directory.
pub fn function_count(data: &[u8]) -> (count: usize)
    ensures
        count == function_table(data@).len(),
{
    data.len() / RUNTIME_FUNCTION_SIZE
}

/// Reads record `index` of the directory.
pub fn function_at(data: &[u8], index: usize) -> (range: FunctionRange)
    requires
        index < function_table(data@).len(),
    ensures
        range == function_table(data@)[index as int],
{
    let len = data.len();
    assert(function_table(data@).len() == len / 12);
    assert(index * 12 + 12 <= len);
    let at: usize = index * 12;
    FunctionRange { begin: read_u32_le(data, at), end: read_u32_le(data, at + 4) }
}

/// Maps an offset inside the image to the begin address of the function that holds it.
///
/// `data` is the raw exception directory and `offset` is relative to the image base. The
/// search bisects the records: an offset below a record's begin continues to the left, one
/// at or past its end continues to the right, and anything else is a hit. `None` means that
/// the search ran out of records.
pub fn resolve_function_begin(data: &[u8], offset: u64) -> (begin: Option<u32>)
    ensures
        begin == resolved_begin(data@, offset),
        begin matches Some(b) ==> exists|i: int|
            0 <= i < function_table(data@).len() && (#[trigger] function_table(data@)[i]).begin
                == b && function_table(data@)[i].encloses(offset),
        sorted_disjoint(function_table(data@)) ==> (begin is Some <==> covered(
            function_table(data@),
            offset,
        )),
{
    let count = function_count(data);
    let ghost table = function_table(data@);
    let mut lo: usize = 0;
    let mut hi: usize = count;
    let mut found: Option<u32> = None;
    while lo < hi
        invariant_except_break
            found is None,
            bisect(table, lo as int, hi as int, offset) == bisect(
                table,
                0,
                table.len() as int,
                offset,
            ),
        invariant
            0 <= lo <= hi <= count,
            count == table.len(),
            table == function_table(data@),
        ensures
            found == resolved_begin(data@, offset),
        decreases hi - lo,
    {
        let mid: usize = lo + (hi - lo) / 2;
        let range = function_at(data, mid);
        if offset < range.begin as u64 {
            hi = mid;
        } else if offset >= range.end as u64 {
            lo = mid + 1;
        } else {
            found = Some(range.begin);
            break;
        }
    }
    proof {
        lemma_bisect_sound(table, 0, table.len() as int, offset);
        if sorted_disjoint(table) {
            lemma_resolver_correct(data@, offset);
        }
    }
    found
}

} // verus!
