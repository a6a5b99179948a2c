use ntdb_unwrap::ntqq::windows::disasm::{
    is_lea, rip_reference, second_memory_operand, InsnHead, MemOperand, Operand, X86_INS_LEA,
    X86_REG_RIP,
};
use ntdb_unwrap::ntqq::windows::resolver::{
    function_at, function_count, read_u32_le, resolve_function_begin, FunctionRange,
};
use ntdb_unwrap::ntqq::windows::scanner::{find_lea_address, find_pattern_address, scan_lea};
use ntdb_unwrap::ntqq::windows::static_analysis::TARGET_PATTERN;
use ntdb_unwrap::ntqq::windows::{
    find_hook_function_offset, locate_with, Disassembler, Error, LocateFailure, TargetFunction,
};

const IMAGE_BASE: u64 = 0x1_8000_0000;

fn directory(ranges: &[(u32, u32)]) -> Vec<u8> {
    let mut data = Vec::new();
    for (begin, end) in ranges {
        data.extend_from_slice(&begin.to_le_bytes());
        data.extend_from_slice(&end.to_le_bytes());
        data.extend_from_slice(&0u32.to_le_bytes());
    }
    data
}

/// `lea rdx, [rip + disp]` placed at `address`, loading `target`.
fn lea_rip(address: u64, target: u64) -> [u8; 7] {
    let disp = target.wrapping_sub(address + 7) as u32;
    let d = disp.to_le_bytes();
    [0x48, 0x8d, 0x15, d[0], d[1], d[2], d[3]]
}

fn put(buffer: &mut [u8], at: usize, bytes: &[u8]) {
    buffer[at..at + bytes.len()].copy_from_slice(bytes);
}

struct SectionSpec {
    name: &'static [u8],
    rva: u32,
    data: Vec<u8>,
}

/// A PE32+ image with the sections given, each 0x200 bytes in the file, and an exception
/// directory entry when `exception` names one.
fn pe64(machine_magic: u16, sections: &[SectionSpec], exception: Option<(u32, u32)>) -> Vec<u8> {
    let headers_size = 0x400usize;
    let mut image = vec![0u8; headers_size + sections.len() * 0x200];
    put(&mut image, 0, b"MZ");
    put(&mut image, 0x3c, &0x40u32.to_le_bytes());
    put(&mut image, 0x40, b"PE\0\0");
    let coff = 0x44;
    put(&mut image, coff, &0x8664u16.to_le_bytes());
    put(&mut image, coff + 2, &(sections.len() as u16).to_le_bytes());
    put(&mut image, coff + 16, &240u16.to_le_bytes());
    put(&mut image, coff + 18, &0x0022u16.to_le_bytes());
    let opt = coff + 20;
    put(&mut image, opt, &machine_magic.to_le_bytes());
    put(&mut image, opt + 24, &IMAGE_BASE.to_le_bytes());
    put(&mut image, opt + 32, &0x1000u32.to_le_bytes());
    put(&mut image, opt + 36, &0x200u32.to_le_bytes());
    put(&mut image, opt + 56, &0x10_0000u32.to_le_bytes());
    put(&mut image, opt + 60, &(headers_size as u32).to_le_bytes());
    put(&mut image, opt + 108, &16u32.to_le_bytes());
    if let Some((rva, size)) = exception {
        put(&mut image, opt + 112 + 3 * 8, &rva.to_le_bytes());
        put(&mut image, opt + 112 + 3 * 8 + 4, &size.to_le_bytes());
    }
    let table = opt + 240;
    for (i, section) in sections.iter().enumerate() {
        let entry = table + i * 40;
        let raw = headers_size + i * 0x200;
        put(&mut image, entry, section.name);
        put(&mut image, entry + 8, &0x200u32.to_le_bytes());
        put(&mut image, entry + 12, &section.rva.to_le_bytes());
        put(&mut image, entry + 16, &0x200u32.to_le_bytes());
        put(&mut image, entry + 20, &(raw as u32).to_le_bytes());
        put(&mut image, entry + 36, &0x4000_0040u32.to_le_bytes());
        put(&mut image, raw, &section.data);
    }
    image
}

fn text_with_lea(at: usize, target: u64) -> Vec<u8> {
    let mut text = vec![0x90u8; 0x100];
    put(&mut text, at, &lea_rip(IMAGE_BASE + 0x1000 + at as u64, target));
    text
}

fn module(text: Vec<u8>, rdata: Vec<u8>, ranges: &[(u32, u32)]) -> Vec<u8> {
    let pdata = directory(ranges);
    let size = pdata.len() as u32;
    pe64(
        0x20b,
        &[
            SectionSpec { name: b".text", rva: 0x1000, data: text },
            SectionSpec { name: b".rdata", rva: 0x9000, data: rdata },
            SectionSpec { name: b".pdata", rva: 0xa000, data: pdata },
        ],
        Some((0xa000, size)),
    )
}

fn failure(found: Result<TargetFunction, Error>) -> LocateFailure {
    match found {
        Err(Error::FindTargetFunction { reason }) => reason,
        Err(other) => panic!("another error: {}", other.message()),
        Ok(target) => panic!("located at {:#x}", target.function_offset),
    }
}

#[test]
fn resolver_returns_begin_of_enclosing_range() {
    let data = directory(&[(0x1000, 0x1030), (0x1030, 0x1060)]);
    assert_eq!(resolve_function_begin(&data, 0x1040), Some(0x1030));
}

#[test]
fn resolver_takes_begin_and_excludes_end() {
    let data = directory(&[(0x1000, 0x1030), (0x1030, 0x1060), (0x1080, 0x1100)]);
    assert_eq!(resolve_function_begin(&data, 0x1000), Some(0x1000));
    assert_eq!(resolve_function_begin(&data, 0x102f), Some(0x1000));
    assert_eq!(resolve_function_begin(&data, 0x1030), Some(0x1030));
    assert_eq!(resolve_function_begin(&data, 0x105f), Some(0x1030));
    assert_eq!(resolve_function_begin(&data, 0x10ff), Some(0x1080));
}

#[test]
fn resolver_fails_outside_every_range() {
    let data = directory(&[(0x1000, 0x1030), (0x1030, 0x1060), (0x1080, 0x1100)]);
    assert_eq!(resolve_function_begin(&data, 0xfff), None);
    assert_eq!(resolve_function_begin(&data, 0x1060), None);
    assert_eq!(resolve_function_begin(&data, 0x107f), None);
    assert_eq!(resolve_function_begin(&data, 0x1100), None);
    assert_eq!(resolve_function_begin(&data, 0x1_0000_1040), None);
    assert_eq!(resolve_function_begin(&[], 0x1000), None);
}

#[test]
fn resolver_finds_every_range_of_a_long_table() {
    let ranges: Vec<(u32, u32)> = (0..100u32).map(|i| (0x1000 + i * 0x20, 0x1010 + i * 0x20)).collect();
    let data = directory(&ranges);
    for (begin, end) in &ranges {
        assert_eq!(resolve_function_begin(&data, *begin as u64), Some(*begin));
        assert_eq!(resolve_function_begin(&data, *end as u64 - 1), Some(*begin));
        assert_eq!(resolve_function_begin(&data, *end as u64), None);
    }
}

#[test]
fn directory_records_are_read_little_endian() {
    let mut data = directory(&[(0x0403_0201, 0x0807_0605)]);
    data.extend_from_slice(&[0xff; 5]);
    assert_eq!(read_u32_le(&data, 0), 0x0403_0201);
    assert_eq!(read_u32_le(&data, 4), 0x0807_0605);
    assert_eq!(function_count(&data), 1);
    assert_eq!(function_at(&data, 0), FunctionRange { begin: 0x0403_0201, end: 0x0807_0605 });
}

#[test]
fn pattern_address_is_section_address_plus_first_index() {
    let mut section = vec![0u8; 0x80];
    put(&mut section, 0x10, b"needle");
    put(&mut section, 0x40, b"needle");
    assert_eq!(find_pattern_address(&section, 0x9000, b"needle"), Some(0x9010));
    assert_eq!(find_pattern_address(&section, 0x9000, b"needles"), None);
    assert_eq!(find_pattern_address(&section, u64::MAX, b"needle"), Some(0xf));
}

#[test]
fn disassembler_ids_are_those_of_the_library() {
    assert_eq!(X86_INS_LEA, capstone::arch::x86::X86Insn::X86_INS_LEA as u32);
    assert_eq!(X86_REG_RIP as u32, capstone::arch::x86::X86Reg::X86_REG_RIP as u32);
}

#[test]
fn rip_reference_adds_length_and_displacement() {
    let head = InsnHead { id: X86_INS_LEA, address: 0x1_8000_1040, len: 7 };
    assert!(is_lea(head));
    assert!(!is_lea(InsnHead { id: X86_INS_LEA + 1, ..head }));
    let rip = MemOperand { base: X86_REG_RIP, disp: 0x7fb9 };
    assert_eq!(rip_reference(head, Some(rip)), Some(0x1_8000_9000));
    let back = MemOperand { base: X86_REG_RIP, disp: -0x47 };
    assert_eq!(rip_reference(head, Some(back)), Some(0x1_8000_1000));
    assert_eq!(rip_reference(head, Some(MemOperand { base: X86_REG_RIP + 1, disp: 0x7fb9 })), None);
    assert_eq!(rip_reference(head, None), None);
    let top = InsnHead { id: X86_INS_LEA, address: u64::MAX - 3, len: 7 };
    assert_eq!(rip_reference(top, Some(MemOperand { base: X86_REG_RIP, disp: 1 })), Some(4));
}

#[test]
fn scan_finds_the_one_lea_among_decoys() {
    let base = 0x1_8000_1000u64;
    let target = 0x1_8000_9000u64;
    let mut text = vec![0x90u8; 0x100];
    // a lea that loads another address
    put(&mut text, 0x10, &lea_rip(base + 0x10, target + 8));
    // the opcode byte as the immediate of a mov
    put(&mut text, 0x20, &[0xb8, 0x8d, 0x00, 0x00, 0x00]);
    // a lea relative to another register: lea rax, [rbx + 0x10]
    put(&mut text, 0x30, &[0x48, 0x8d, 0x43, 0x10]);
    put(&mut text, 0x40, &lea_rip(base + 0x40, target));
    // a second lea to the same address, later on
    put(&mut text, 0x60, &lea_rip(base + 0x60, target));
    match find_lea_address(&text, base, target) {
        Ok(found) => assert_eq!(found, Some(base + 0x40)),
        Err(e) => panic!("{}", e.message()),
    }
}

#[test]
fn scan_passes_over_what_is_no_match() {
    let base = 0x1_8000_1000u64;
    let target = 0x1_8000_9000u64;
    let mut text = vec![0x90u8; 0x40];
    put(&mut text, 0x10, &lea_rip(base + 0x10, target + 1));
    assert!(matches!(find_lea_address(&text, base, target), Ok(None)));
    // the opcode byte at the very beginning and near the end has no room around it
    let mut edges = vec![0x90u8; 0x20];
    edges[0] = 0x8d;
    edges[0x1b] = 0x8d;
    edges[0x1f] = 0x8d;
    assert!(matches!(find_lea_address(&edges, base, target), Ok(None)));
    assert!(matches!(find_lea_address(&[], base, target), Ok(None)));
}

#[test]
fn scan_takes_a_lea_that_ends_with_the_code() {
    let base = 0x1_8000_1000u64;
    let target = 0x1_8000_9000u64;
    let mut text = vec![0x90u8; 0x20];
    put(&mut text, 0x19, &lea_rip(base + 0x19, target));
    match find_lea_address(&text, base, target) {
        Ok(found) => assert_eq!(found, Some(base + 0x19)),
        Err(e) => panic!("{}", e.message()),
    }
}

#[test]
fn locator_finds_function_and_instruction() {
    let mut rdata = vec![0u8; 0x40];
    put(&mut rdata, 0, &TARGET_PATTERN);
    let image = module(
        text_with_lea(0x40, IMAGE_BASE + 0x9000),
        rdata,
        &[(0x1000, 0x1030), (0x1030, 0x1060)],
    );
    match find_hook_function_offset(&image) {
        Ok(target) => {
            assert_eq!(target.function_offset, 0x1030);
            assert_eq!(target.lea_instr_offset, 0x1040);
        },
        Err(e) => panic!("{}", e.message()),
    }
}

#[test]
fn locator_follows_the_pattern_inside_rdata() {
    let mut rdata = vec![0u8; 0x80];
    put(&mut rdata, 0x33, &TARGET_PATTERN);
    let image = module(
        text_with_lea(0x12, IMAGE_BASE + 0x9033),
        rdata,
        &[(0x1000, 0x1030), (0x1030, 0x1060)],
    );
    match find_hook_function_offset(&image) {
        Ok(target) => {
            assert_eq!(target, TargetFunction { function_offset: 0x1000, lea_instr_offset: 0x1012 });
        },
        Err(e) => panic!("{}", e.message()),
    }
}

#[test]
fn locator_rejects_what_is_no_image() {
    assert!(matches!(find_hook_function_offset(b"not an image"), Err(Error::Object { .. })));
    assert!(matches!(find_hook_function_offset(&[]), Err(Error::Object { .. })));
}

#[test]
fn locator_reports_missing_rdata() {
    let image = pe64(
        0x20b,
        &[SectionSpec { name: b".text", rva: 0x1000, data: vec![0x90; 0x40] }],
        None,
    );
    assert_eq!(failure(find_hook_function_offset(&image)), LocateFailure::RdataSectionMissing);
}

#[test]
fn locator_reports_missing_pattern() {
    let image = module(text_with_lea(0x40, IMAGE_BASE + 0x9000), vec![0x41; 0x40], &[(0x1000, 0x1060)]);
    assert_eq!(failure(find_hook_function_offset(&image)), LocateFailure::PatternNotFound);
}

#[test]
fn locator_reports_missing_text() {
    let mut rdata = vec![0u8; 0x40];
    put(&mut rdata, 0, &TARGET_PATTERN);
    let image = pe64(0x20b, &[SectionSpec { name: b".rdata", rva: 0x9000, data: rdata }], None);
    assert_eq!(failure(find_hook_function_offset(&image)), LocateFailure::TextSectionMissing);
}

#[test]
fn locator_reports_missing_lea() {
    let mut rdata = vec![0u8; 0x40];
    put(&mut rdata, 0, &TARGET_PATTERN);
    let image = module(text_with_lea(0x40, IMAGE_BASE + 0x9001), rdata, &[(0x1000, 0x1060)]);
    assert_eq!(failure(find_hook_function_offset(&image)), LocateFailure::LeaNotFound);
}

#[test]
fn locator_reports_missing_exception_directory() {
    let mut rdata = vec![0u8; 0x40];
    put(&mut rdata, 0, &TARGET_PATTERN);
    let mut image = module(text_with_lea(0x40, IMAGE_BASE + 0x9000), rdata, &[(0x1000, 0x1060)]);
    // an optional header that ends before the exception directory
    put(&mut image, 0x44 + 20 + 108, &3u32.to_le_bytes());
    assert_eq!(failure(find_hook_function_offset(&image)), LocateFailure::ExceptionDirectoryMissing);
}

#[test]
fn locator_reports_instruction_outside_every_function() {
    let mut rdata = vec![0u8; 0x40];
    put(&mut rdata, 0, &TARGET_PATTERN);
    let image = module(
        text_with_lea(0x40, IMAGE_BASE + 0x9000),
        rdata,
        &[(0x1000, 0x1030), (0x1050, 0x1060)],
    );
    assert_eq!(
        failure(find_hook_function_offset(&image)),
        LocateFailure::FunctionNotFound { offset: 0x1040 }
    );
    assert_eq!(
        Error::FindTargetFunction { reason: LocateFailure::FunctionNotFound { offset: 0x1040 } }.message(),
        "find target function offset: located function begin address through exception directory, for offset 0x0000000000001040"
    );
    assert_eq!(
        Error::FindTargetFunction { reason: LocateFailure::LeaNotFound }.message(),
        "find target function offset: LEA instruction not found"
    );
}

#[test]
fn locator_wants_a_64_bit_image() {
    // the same headers with the magic of a 32-bit optional header do not parse as PE32+;
    // a 32-bit image proper is built with its own layout
    let mut rdata = vec![0u8; 0x40];
    put(&mut rdata, 0, &TARGET_PATTERN);
    let image = pe32(text_with_lea32(0x40, 0x40_9000), rdata);
    assert_eq!(failure(find_hook_function_offset(&image)), LocateFailure::NotPe64);
}

const IMAGE_BASE_32: u32 = 0x40_0000;

/// Code for a 32-bit image in which 64-bit decoding still finds the `lea`.
fn text_with_lea32(at: usize, target: u64) -> Vec<u8> {
    let mut text = vec![0x90u8; 0x100];
    put(&mut text, at, &lea_rip(IMAGE_BASE_32 as u64 + 0x1000 + at as u64, target));
    text
}

/// A PE32 image with `.text` and `.rdata`.
fn pe32(text: Vec<u8>, rdata: Vec<u8>) -> Vec<u8> {
    let headers_size = 0x400usize;
    let mut image = vec![0u8; headers_size + 2 * 0x200];
    put(&mut image, 0, b"MZ");
    put(&mut image, 0x3c, &0x40u32.to_le_bytes());
    put(&mut image, 0x40, b"PE\0\0");
    let coff = 0x44;
    put(&mut image, coff, &0x014cu16.to_le_bytes());
    put(&mut image, coff + 2, &2u16.to_le_bytes());
    put(&mut image, coff + 16, &224u16.to_le_bytes());
    put(&mut image, coff + 18, &0x0102u16.to_le_bytes());
    let opt = coff + 20;
    put(&mut image, opt, &0x10bu16.to_le_bytes());
    put(&mut image, opt + 28, &IMAGE_BASE_32.to_le_bytes());
    put(&mut image, opt + 32, &0x1000u32.to_le_bytes());
    put(&mut image, opt + 36, &0x200u32.to_le_bytes());
    put(&mut image, opt + 56, &0x10_0000u32.to_le_bytes());
    put(&mut image, opt + 60, &(headers_size as u32).to_le_bytes());
    put(&mut image, opt + 92, &16u32.to_le_bytes());
    let table = opt + 224;
    let sections: [(&[u8], u32, Vec<u8>); 2] = [(b".text", 0x1000, text), (b".rdata", 0x9000, rdata)];
    for (i, (name, rva, data)) in sections.iter().enumerate() {
        let entry = table + i * 40;
        let raw = headers_size + i * 0x200;
        put(&mut image, entry, name);
        put(&mut image, entry + 8, &0x200u32.to_le_bytes());
        put(&mut image, entry + 12, &rva.to_le_bytes());
        put(&mut image, entry + 16, &0x200u32.to_le_bytes());
        put(&mut image, entry + 20, &(raw as u32).to_le_bytes());
        put(&mut image, entry + 36, &0x4000_0040u32.to_le_bytes());
        put(&mut image, raw, data);
    }
    image
}

fn engine() -> Disassembler {
    match Disassembler::build() {
        Ok(engine) => engine,
        Err(e) => panic!("{}", e.message()),
    }
}

#[test]
fn second_operand_counts_where_it_is_memory() {
    let memory = MemOperand { base: X86_REG_RIP, disp: 0x10 };
    assert_eq!(second_memory_operand(&vec![Operand::Reg(35), Operand::Mem(memory)]), Some(memory));
    assert_eq!(
        second_memory_operand(&vec![Operand::Reg(35), Operand::Mem(memory), Operand::Imm(1)]),
        Some(memory)
    );
    assert_eq!(second_memory_operand(&vec![Operand::Mem(memory), Operand::Reg(35)]), None);
    assert_eq!(second_memory_operand(&vec![Operand::Reg(35), Operand::Imm(0x10)]), None);
    assert_eq!(second_memory_operand(&vec![Operand::Reg(35), Operand::Invalid]), None);
    assert_eq!(second_memory_operand(&vec![Operand::Mem(memory)]), None);
    assert_eq!(second_memory_operand(&vec![]), None);
}

#[test]
fn scan_with_an_engine_at_hand_does_not_fail() {
    let engine = engine();
    let base = 0x1_8000_1000u64;
    let target = 0x1_8000_9000u64;
    for decoys in 0..8usize {
        for place in 0..=decoys {
            // `decoys` instructions that load another address, and the one that loads the
            // target among them at every place in turn
            let mut text = vec![0x90u8; 0x10 * (decoys + 2)];
            for slot in 0..=decoys {
                let at = 0x10 * slot + 3;
                let loads = if slot == place { target } else { target + 1 + slot as u64 };
                put(&mut text, at, &lea_rip(base + at as u64, loads));
                // the opcode byte where no instruction begins
                put(&mut text, at + 8, &[0xb8, 0x8d, 0x8d, 0x8d, 0x8d]);
            }
            assert_eq!(
                scan_lea(&engine, &text, base, target),
                Some(base + 0x10 * place as u64 + 3),
                "{} decoys, place {}",
                decoys,
                place
            );
        }
    }
    assert_eq!(scan_lea(&engine, &[], base, target), None);
    assert_eq!(scan_lea(&engine, &[0x8d; 64], base, target), None);
}

#[test]
fn scan_tells_lea_from_other_uses_of_its_operands() {
    let engine = engine();
    let base = 0x1_8000_1000u64;
    let target = 0x1_8000_9000u64;
    // mov rdx, [rip + disp]: the same operands, another instruction
    let mut text = vec![0x90u8; 0x20];
    let mut mov = lea_rip(base + 4, target);
    mov[1] = 0x8b;
    put(&mut text, 4, &mov);
    assert_eq!(scan_lea(&engine, &text, base, target), None);
    // lea with the memory operand relative to rbx
    let mut text = vec![0x90u8; 0x20];
    put(&mut text, 4, &[0x48, 0x8d, 0x93, 0x00, 0x10, 0x00, 0x00]);
    assert_eq!(scan_lea(&engine, &text, base, 0x1000), None);
}

#[test]
fn locator_with_an_engine_at_hand_gives_the_verdict() {
    let engine = engine();
    let mut rdata = vec![0u8; 0x40];
    put(&mut rdata, 0, &TARGET_PATTERN);
    let image = module(
        text_with_lea(0x40, IMAGE_BASE + 0x9000),
        rdata.clone(),
        &[(0x1000, 0x1030), (0x1030, 0x1060)],
    );
    match locate_with(&engine, &image) {
        Ok(target) => {
            assert_eq!(target, TargetFunction { function_offset: 0x1030, lea_instr_offset: 0x1040 })
        },
        Err(e) => panic!("{}", e.message()),
    }
    let image = module(text_with_lea(0x40, IMAGE_BASE + 0x9001), rdata, &[(0x1000, 0x1060)]);
    assert_eq!(failure(locate_with(&engine, &image)), LocateFailure::LeaNotFound);
    assert!(matches!(locate_with(&engine, b"MZ"), Err(Error::Object { .. })));
}
