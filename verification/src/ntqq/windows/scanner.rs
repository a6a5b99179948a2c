//! Finding the marker string in the data section and the instruction that refers to it.

use crate::ntqq::windows::disasm::{
    is_lea, rip_reference, second_memory_operand, spec_rip_reference,
    spec_second_memory_operand, x86_insn_head, x86_operands, Disassembler, X86_INS_LEA,
};
use crate::ntqq::windows::Error;
use crate::util::{first_index_of, first_occurrence, lemma_first_occurrence_unique, occurs_at};
use vstd::prelude::*;
use vstd::slice::slice_subrange;

verus! {

/// Opcode byte of `lea`.
pub const LEA_OPCODE: u8 = 0x8d;

/// The address of the first occurrence of `pattern` in a section mapped at
/// `section_address`.
pub open spec fn spec_pattern_address(section: Seq<u8>, section_address: u64, pattern: Seq<u8>) -> Option<
    u64,
> {
    match first_index_of(section, pattern) {
        Some(at) => Some(section_address.wrapping_add(at as u64)),
        None => None,
    }
}

/// Calls `memchr::memmem::find`, which returns the index of the first occurrence of the
/// needle in the haystack, and `None` where there is none.
#[verifier::external_body]
fn memmem_find(haystack: &[u8], needle: &[u8]) -> (found: Option<usize>)
    ensures
        match found {
            Some(at) => first_occurrence(haystack@, needle@, at as int),
            None => forall|at: int| !occurs_at(haystack@, needle@, at),
        },
{
    memchr::memmem::find(haystack, needle)
}

/// Calls `memchr::memchr_iter` and collects what it yields: the indices of all occurrences
/// of `needle` in `haystack`, in rising order.
#[verifier::external_body]
fn memchr_all(needle: u8, haystack: &[u8]) -> (found: Vec<usize>)
    ensures
        forall|k: int|
            0 <= k < found.len() ==> (#[trigger] found[k]) < haystack.len() && haystack[found[k] as int]
                == needle,
        forall|j: int, k: int| 0 <= j < k < found.len() ==> found[j] < found[k],
        forall|i: int|
            0 <= i < haystack.len() && haystack[i] == needle ==> exists|k: int|
                0 <= k < found.len() && #[trigger] found[k] == i,
{
    memchr::memchr_iter(needle, haystack).collect()
}

/// Finds the first occurrence of `pattern` in a section and returns its address, which is
/// the address of the section plus the index of the occurrence.
pub fn find_pattern_address(section: &[u8], section_address: u64, pattern: &[u8]) -> (address:
    Option<u64>)
    ensures
        address == spec_pattern_address(section@, section_address, pattern@),
        address is Some <==> exists|at: int| occurs_at(section@, pattern@, at),
{
    match memmem_find(section, pattern) {
        Some(at) => {
            proof {
                let first = choose|first: int| first_occurrence(section@, pattern@, first);
                lemma_first_occurrence_unique(section@, pattern@, first, at as int);
            }
            Some(section_address.wrapping_add(at as u64))
        },
        None => None,
    }
}

/// Whether the opcode byte stands at index `at` of the code with room for the instruction
/// around it: one prefix byte before it, and the ModRM byte and a four-byte displacement
/// behind it.
pub open spec fn is_candidate(text: Seq<u8>, at: int) -> bool {
    &&& 1 <= at
    &&& at + 6 <= text.len()
    &&& text[at] == LEA_OPCODE
}

/// The seven bytes that are decoded for the opcode byte at index `at`.
pub open spec fn candidate_code(text: Seq<u8>, at: int) -> Seq<u8> {
    text.subrange(at - 1, at + 6)
}

/// The address at which the seven bytes for the opcode byte at index `at` are decoded.
pub open spec fn candidate_address(text_address: u64, at: int) -> u64 {
    text_address.wrapping_add((at - 1) as u64)
}

/// The address that the instruction decoded for the opcode byte at index `at` loads, where
/// that instruction is a `lea` with a `rip`-relative memory operand.
pub open spec fn candidate_reference(text: Seq<u8>, text_address: u64, at: int) -> Option<u64> {
    let code = candidate_code(text, at);
    let address = candidate_address(text_address, at);
    match x86_insn_head(code, address) {
        Some(head) => if head.id == X86_INS_LEA {
            spec_rip_reference(head, spec_second_memory_operand(x86_operands(code, address)))
        } else {
            None
        },
        None => None,
    }
}

/// Whether the opcode byte at index `at` belongs to a `lea` that loads the address `target`.
pub open spec fn refers_to(text: Seq<u8>, text_address: u64, target: u64, at: int) -> bool {
    is_candidate(text, at) && candidate_reference(text, text_address, at) == Some(target)
}

/// Whether `at` is the index of the first opcode byte that belongs to a `lea` loading
/// `target`.
pub open spec fn first_reference(text: Seq<u8>, text_address: u64, target: u64, at: int) -> bool {
    &&& refers_to(text, text_address, target, at)
    &&& forall|earlier: int| 0 <= earlier < at ==> !refers_to(text, text_address, target, earlier)
}

/// The index of the first opcode byte that belongs to a `lea` loading `target`, if there is
/// one.
pub open spec fn first_reference_index(text: Seq<u8>, text_address: u64, target: u64) -> Option<
    int,
> {
    if exists|at: int| first_reference(text, text_address, target, at) {
        Some(choose|at: int| first_reference(text, text_address, target, at))
    } else {
        None
    }
}

/// There is one first reference at most.
pub proof fn lemma_first_reference_unique(
    text: Seq<u8>,
    text_address: u64,
    target: u64,
    a: int,
    b: int,
)
    requires
        first_reference(text, text_address, target, a),
        first_reference(text, text_address, target, b),
    ensures
        a == b,
{
}

/// Scan correctness. Where one opcode byte alone belongs to a `lea` that loads `target`,
/// whatever else the code holds, that instruction is the one that the scan reports: other
/// `lea` instructions, and opcode bytes that are part of something else, do not count.
pub proof fn lemma_single_reference(text: Seq<u8>, text_address: u64, target: u64, at: int)
    requires
        refers_to(text, text_address, target, at),
        forall|other: int| refers_to(text, text_address, target, other) ==> other == at,
    ensures
        spec_lea_address(text, text_address, target) == Some(candidate_address(text_address, at)),
{
    assert(first_reference(text, text_address, target, at));
    let first = choose|first: int| first_reference(text, text_address, target, first);
    lemma_first_reference_unique(text, text_address, target, first, at);
}

/// The address of the first `lea` in `text` that loads `target`.
pub open spec fn spec_lea_address(text: Seq<u8>, text_address: u64, target: u64) -> Option<u64> {
    match first_reference_index(text, text_address, target) {
        Some(at) => Some(candidate_address(text_address, at)),
        None => None,
    }
}

/// Scans code for the first `lea` that loads the address `target` relative to `rip`, and
/// returns the address of that instruction.
///
/// `text` is the code and `text_address` the address at which it is mapped. Every
/// occurrence of the opcode byte is tried in rising order: the seven bytes around it are
/// decoded as one instruction, and what does not decode, is no `lea` or does not refer to
/// `target` through `rip` is passed over. An occurrence without room for the seven bytes is
/// passed over too.
pub fn scan_lea(engine: &Disassembler, text: &[u8], text_address: u64, target: u64) -> (found:
    Option<u64>)
    ensures
        found == spec_lea_address(text@, text_address, target),
        found is Some <==> exists|at: int| refers_to(text@, text_address, target, at),
{
    let positions = memchr_all(LEA_OPCODE, text);
    let mut k: usize = 0;
    while k < positions.len()
        invariant
            0 <= k <= positions.len(),
            forall|j: int|
                0 <= j < positions.len() ==> (#[trigger] positions[j]) < text.len()
                    && text[positions[j] as int] == LEA_OPCODE,
            forall|i: int, j: int| 0 <= i < j < positions.len() ==> positions[i] < positions[j],
            forall|i: int|
                0 <= i < text.len() && text[i] == LEA_OPCODE ==> exists|j: int|
                    0 <= j < positions.len() && #[trigger] positions[j] == i,
            forall|j: int|
                0 <= j < k ==> !refers_to(text@, text_address, target, (#[trigger] positions[j]) as int),
        decreases positions.len() - k,
    {
        let at = positions[k];
        if at >= 1 && text.len() >= 6 && at <= text.len() - 6 {
            let code = slice_subrange(text, at - 1, at + 6);
            let address = text_address.wrapping_add((at - 1) as u64);
            assert(code@ == candidate_code(text@, at as int));
            match engine.insn_head(code, address) {
                Some(head) => {
                    if is_lea(head) {
                        let operands = engine.operands(code, address);
                        assert(operands is Some);
                        let reference = match operands {
                            Some(list) => rip_reference(head, second_memory_operand(&list)),
                            None => None,
                        };
                        if reference == Some(target) {
                            proof {
                                lemma_first_candidate(text@, text_address, target, positions@, k as int);
                                let first = choose|first: int|
                                    first_reference(text@, text_address, target, first);
                                lemma_first_reference_unique(
                                    text@,
                                    text_address,
                                    target,
                                    first,
                                    at as int,
                                );
                            }
                            return Some(head.address);
                        }
                    }
                },
                None => {},
            }
        }
        k += 1;
    }
    proof {
        assert forall|at: int| !refers_to(text@, text_address, target, at) by {
            if refers_to(text@, text_address, target, at) {
                let j = choose|j: int| 0 <= j < positions.len() && #[trigger] positions[j] == at;
                assert(!refers_to(text@, text_address, target, positions[j] as int));
            }
        }
    }
    None
}

/// Sets a disassembler up and scans code with it for the first `lea` that loads the
/// address `target` relative to `rip`. The scan itself does not fail: the only failure is
/// that of setting the disassembler up.
pub fn find_lea_address(text: &[u8], text_address: u64, target: u64) -> (found: Result<
    Option<u64>,
    Error,
>)
    ensures
        match found {
            Ok(address) => address == spec_lea_address(text@, text_address, target),
            Err(e) => e is Capstone,
        },
{
    let engine = Disassembler::build()?;
    Ok(scan_lea(&engine, text, text_address, target))
}

/// With all earlier occurrences of the opcode byte ruled out, a reference found at
/// occurrence `k` is the first one.
proof fn lemma_first_candidate(
    text: Seq<u8>,
    text_address: u64,
    target: u64,
    positions: Seq<usize>,
    k: int,
)
    requires
        0 <= k < positions.len(),
        forall|i: int, j: int| 0 <= i < j < positions.len() ==> positions[i] < positions[j],
        forall|i: int|
            0 <= i < text.len() && text[i] == LEA_OPCODE ==> exists|j: int|
                0 <= j < positions.len() && #[trigger] positions[j] == i,
        forall|j: int|
            0 <= j < k ==> !refers_to(text, text_address, target, (#[trigger] positions[j]) as int),
        refers_to(text, text_address, target, positions[k] as int),
    ensures
        first_reference(text, text_address, target, positions[k] as int),
{
    assert forall|earlier: int| 0 <= earlier < positions[k] implies !refers_to(
        text,
        text_address,
        target,
        earlier,
    ) by {
        if refers_to(text, text_address, target, earlier) {
            let j = choose|j: int| 0 <= j < positions.len() && #[trigger] positions[j] == earlier;
            if j >= k {
                if j > k {
                    assert(positions[k] < positions[j]);
                }
            } else {
                assert(!refers_to(text, text_address, target, positions[j] as int));
            }
        }
    }
}

} // verus!
