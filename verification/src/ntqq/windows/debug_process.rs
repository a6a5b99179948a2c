//! What a debug session is made of: its input, the breakpoint it keeps, and the rules by
//! which it reads what the program hands to the hooked routine.

use crate::ntqq::windows::env_detect::InstalledQQInfo;
use crate::ntqq::windows::static_analysis::TargetFunction;
use crate::util::{ascii_string, spec_ascii_string, string_from_utf8_lossy, utf8_lossy};
use vstd::prelude::*;

verus! {

/// Input of a debug session.
pub struct DebugInfo {
    /// The installation to run.
    pub qq: InstalledQQInfo,
    /// The routine to stop at.
    pub func: TargetFunction,
}

/// The trap instruction, `int3`.
pub const TRAP_OPCODE: u8 = 0xcc;

/// The trap flag of the flags register: with it set, the processor raises a single-step
/// exception after the next instruction.
pub const TRAP_FLAG: u32 = 0x100;

/// Exception code of a breakpoint trap.
pub const EXCEPTION_BREAKPOINT: u32 = 0x8000_0003;

/// Exception code of a single-step trap.
pub const EXCEPTION_SINGLE_STEP: u32 = 0x8000_0004;

/// How long one wait for a debug event lasts, in milliseconds.
pub const WAIT_TIMEOUT_MS: u32 = 10_000;

/// How many bytes are read where the argument of the hooked routine points.
pub const ARGUMENT_LIMIT: usize = 256;

/// Length of a key.
pub const KEY_LENGTH: usize = 16;

/// A software breakpoint: one byte of code replaced by the trap instruction.
#[derive(Clone, Copy, Debug, PartialEq, Eq, Structural)]
pub struct SoftwareBreakpoint {
    /// Address of the replaced byte in the program.
    pub address: u64,
    /// The byte that the program has there.
    pub original_byte: u8,
    /// Whether the trap instruction is in place.
    pub is_active: bool,
}

/// What is kept for a thread that steps over the disarmed breakpoint.
#[derive(Clone, Copy, Debug, PartialEq, Eq, Structural)]
pub struct ThreadStepState {
    /// Address of the breakpoint to put back after the step.
    pub breakpoint_address: u64,
}

/// The registers of a thread that a session reads or writes.
#[derive(Clone, Copy, Debug, PartialEq, Eq, Structural)]
pub struct ThreadContext {
    /// Instruction pointer.
    pub rip: u64,
    /// Third argument of a call.
    pub r8: u64,
    /// Flags register.
    pub eflags: u32,
}

/// A module loaded into the program.
pub struct Module {
    /// File name of the module, as the system reports it.
    pub name: Vec<u8>,
    /// Address at which the module is loaded.
    pub base: u64,
}

/// The lower-case form of an ASCII letter, and any other byte as it is.
pub open spec fn spec_ascii_lower(byte: u8) -> u8 {
    if 0x41 <= byte <= 0x5a {
        (byte + 0x20) as u8
    } else {
        byte
    }
}

/// Whether two names are equal apart from the case of ASCII letters.
pub open spec fn spec_eq_ignore_ascii_case(a: Seq<u8>, b: Seq<u8>) -> bool {
    &&& a.len() == b.len()
    &&& forall|i: int| 0 <= i < a.len() ==> spec_ascii_lower(a[i]) == spec_ascii_lower(b[i])
}

/// Index of the first of `modules[from..]` called `name`, apart from case.
pub open spec fn module_index_from(modules: Seq<Module>, name: Seq<u8>, from: int) -> Option<int>
    decreases modules.len() - from,
{
    if from < 0 || from >= modules.len() {
        None
    } else if spec_eq_ignore_ascii_case(modules[from].name@, name) {
        Some(from)
    } else {
        module_index_from(modules, name, from + 1)
    }
}

/// The base address of the first module called `name`, apart from case.
pub open spec fn spec_module_base(modules: Seq<Module>, name: Seq<u8>) -> Option<u64> {
    match module_index_from(modules, name, 0) {
        Some(i) => Some(modules[i].base),
        None => None,
    }
}

/// The lower-case form of an ASCII letter, and any other byte as it is.
pub fn ascii_lower(byte: u8) -> (lower: u8)
    ensures
        lower == spec_ascii_lower(byte),
{
    if 0x41 <= byte && byte <= 0x5a {
        byte + 0x20
    } else {
        byte
    }
}

/// Compares two names without regard to the case of ASCII letters.
pub fn eq_ignore_ascii_case(a: &[u8], b: &[u8]) -> (equal: bool)
    ensures
        equal == spec_eq_ignore_ascii_case(a@, b@),
{
    if a.len() != b.len() {
        return false;
    }
    let mut i: usize = 0;
    while i < a.len()
        invariant
            a.len() == b.len(),
            0 <= i <= a.len(),
            forall|j: int| 0 <= j < i ==> spec_ascii_lower(a[j]) == spec_ascii_lower(b[j]),
        decreases a.len() - i,
    {
        if ascii_lower(a[i]) != ascii_lower(b[i]) {
            return false;
        }
        i += 1;
    }
    true
}

/// Looks a module up by its name, without regard to case, and returns the address at which
/// the first module of that name is loaded.
pub fn get_module_base(modules: &Vec<Module>, name: &[u8]) -> (base: Option<u64>)
    ensures
        base == spec_module_base(modules@, name@),
        base matches Some(b) ==> exists|i: int|
            0 <= i < modules.len() && (#[trigger] modules[i]).base == b
                && spec_eq_ignore_ascii_case(modules[i].name@, name@),
        base is None ==> forall|i: int|
            0 <= i < modules.len() ==> !spec_eq_ignore_ascii_case(
                (#[trigger] modules[i]).name@,
                name@,
            ),
{
    let mut i: usize = 0;
    while i < modules.len()
        invariant
            0 <= i <= modules.len(),
            module_index_from(modules@, name@, 0) == module_index_from(modules@, name@, i as int),
            forall|j: int|
                0 <= j < i ==> !spec_eq_ignore_ascii_case((#[trigger] modules[j]).name@, name@),
        decreases modules.len() - i,
    {
        if eq_ignore_ascii_case(modules[i].name.as_slice(), name) {
            return Some(modules[i].base);
        }
        i += 1;
    }
    None
}

/// Index of the first zero byte of `bytes[from..]`, or the length of `bytes` where there is
/// none.
pub open spec fn nul_from(bytes: Seq<u8>, from: int) -> int
    decreases bytes.len() - from,
{
    if from < 0 || from >= bytes.len() || bytes[from] == 0 {
        from
    } else {
        nul_from(bytes, from + 1)
    }
}

/// The string that a read of `limit` bytes yields: the bytes ahead of the first zero byte.
/// A read that came back short, or empty, yields the empty string.
pub open spec fn spec_remote_string(bytes: Seq<u8>, limit: int) -> Seq<u8> {
    if bytes.len() == limit {
        bytes.subrange(0, nul_from(bytes, 0))
    } else {
        Seq::<u8>::empty()
    }
}

/// Whether the byte is a printable ASCII character, the space included.
pub open spec fn is_printable(byte: u8) -> bool {
    0x20 <= byte <= 0x7e
}

/// Whether the string passes for a key: it has the length of one and is printable.
///
/// This goes by the shape of the string alone. Nothing tells a key from another string of
/// that shape.
pub open spec fn spec_is_key(string: Seq<u8>) -> bool {
    string.len() == KEY_LENGTH && spec_all_printable(string)
}

/// The position of the first zero byte lies within the bytes, nothing ahead of it is zero,
/// and a zero byte stands there unless the bytes end first.
pub proof fn lemma_nul_from(bytes: Seq<u8>, from: int)
    requires
        0 <= from <= bytes.len(),
    ensures
        from <= nul_from(bytes, from) <= bytes.len(),
        forall|i: int| from <= i < nul_from(bytes, from) ==> bytes[i] != 0,
        nul_from(bytes, from) < bytes.len() ==> bytes[nul_from(bytes, from)] == 0,
    decreases bytes.len() - from,
{
    if from < bytes.len() && bytes[from] != 0 {
        lemma_nul_from(bytes, from + 1);
    }
}

/// Turns what a read of `limit` bytes brought back into the string that stands there.
pub fn read_remote_string(bytes: &[u8], limit: usize) -> (string: Vec<u8>)
    ensures
        string@ == spec_remote_string(bytes@, limit as int),
        bytes.len() != limit ==> string.len() == 0,
        bytes.len() == limit ==> string@ == bytes@.subrange(0, string.len() as int),
        forall|i: int| 0 <= i < string.len() ==> string[i] != 0,
        bytes.len() == limit && string.len() < limit ==> bytes[string.len() as int] == 0,
{
    let mut string: Vec<u8> = Vec::new();
    if bytes.len() != limit {
        return string;
    }
    proof {
        lemma_nul_from(bytes@, 0);
    }
    let mut i: usize = 0;
    while i < bytes.len() && bytes[i] != 0
        invariant
            0 <= i <= bytes.len(),
            nul_from(bytes@, 0) == nul_from(bytes@, i as int),
            string@ == bytes@.subrange(0, i as int),
            forall|j: int| 0 <= j < i ==> bytes[j] != 0,
        decreases bytes.len() - i,
    {
        string.push(bytes[i]);
        i += 1;
    }
    string
}

/// Decides whether a string passes for a key.
pub fn is_key(string: &[u8]) -> (key: bool)
    ensures
        key == spec_is_key(string@),
{
    if string.len() != KEY_LENGTH {
        return false;
    }
    all_printable(string)
}

/// Whether every byte is a printable ASCII character.
pub open spec fn spec_all_printable(data: Seq<u8>) -> bool {
    forall|i: int| 0 <= i < data.len() ==> is_printable(data[i])
}

/// Tells whether every byte is a printable ASCII character.
pub fn all_printable(data: &[u8]) -> (printable: bool)
    ensures
        printable == spec_all_printable(data@),
{
    let mut i: usize = 0;
    while i < data.len()
        invariant
            0 <= i <= data.len(),
            forall|j: int| 0 <= j < i ==> is_printable(data[j]),
        decreases data.len() - i,
    {
        if !(0x20 <= data[i] && data[i] <= 0x7e) {
            return false;
        }
        i += 1;
    }
    true
}

/// The text of a string read from the program: the characters that the bytes stand for
/// where all of them are printable ASCII, and else what the bytes read as UTF-8, with a
/// replacement character for what does not.
pub open spec fn spec_parse_string_data(data: Seq<u8>) -> Seq<char> {
    if spec_all_printable(data) {
        spec_ascii_string(data)
    } else {
        utf8_lossy(data)
    }
}

/// Turns a string read from the program into text.
pub fn parse_string_data(data: &[u8]) -> (text: String)
    ensures
        text@ == spec_parse_string_data(data@),
{
    if all_printable(data) {
        ascii_string(data)
    } else {
        string_from_utf8_lossy(data)
    }
}

} // verus!
