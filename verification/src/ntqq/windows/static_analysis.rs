//! Locating the hooked routine inside the native module.
//!
//! The routine logs a message whose format string is unique in the module. The locator
//! finds that string in `.rdata`, then the instruction in `.text` that loads its address,
//! and then the function around that instruction, by the exception directory.

use crate::ntqq::windows::disasm::Disassembler;
use crate::ntqq::windows::image::{
    exception_directory_of, image_base_of, read_exception_directory, read_image_base,
    read_section, section_of, DirectoryLookup, ExceptionDirectory, Section,
};
use crate::ntqq::windows::resolver::{resolve_function_begin, resolved_begin};
use crate::ntqq::windows::scanner::{
    candidate_address, find_pattern_address, lemma_single_reference, refers_to, scan_lea,
    spec_lea_address, spec_pattern_address,
};
use crate::ntqq::windows::{Error, LocateFailure};
use vstd::prelude::*;

verus! {

/// The format string of the message that the hooked routine logs:
/// `nt_sqlite3_key_v2: db=%p zDb=%s`.
pub const TARGET_PATTERN: [u8; 31] = [
    0x6e, 0x74, 0x5f, 0x73, 0x71, 0x6c, 0x69, 0x74, 0x65, 0x33, 0x5f, 0x6b, 0x65, 0x79, 0x5f, 0x76,
    0x32, 0x3a, 0x20, 0x64, 0x62, 0x3d, 0x25, 0x70, 0x20, 0x7a, 0x44, 0x62, 0x3d, 0x25, 0x73,
];

/// Where the hooked routine is. Both offsets are relative to the image base.
#[derive(Clone, Copy, Debug, PartialEq, Eq, Structural)]
pub struct TargetFunction {
    /// Begin of the routine, `int64 f(const void *a1, const char *a2, int64 a3, unsigned
    /// int a4)`.
    pub function_offset: u64,
    /// The instruction inside the routine that loads the address of the format string.
    pub lea_instr_offset: u64,
}

/// How locating ends on a module, apart from what the disassembler may report.
pub enum Verdict {
    /// The routine was found.
    Located(TargetFunction),
    /// The parser rejects the module.
    Malformed,
    /// The module was read, but a step of the search came up empty.
    Missing(LocateFailure),
}

/// The address of the format string in `module`, or the verdict where the search ends
/// before it is known.
pub open spec fn locate_pattern(module: Seq<u8>) -> Result<u64, Verdict> {
    if image_base_of(module) is None {
        Err(Verdict::Malformed)
    } else {
        match section_of(module, ".rdata"@) {
            None => Err(Verdict::Malformed),
            Some(None) => Err(Verdict::Missing(LocateFailure::RdataSectionMissing)),
            Some(Some((address, data))) => match spec_pattern_address(
                data,
                address,
                TARGET_PATTERN@,
            ) {
                None => Err(Verdict::Missing(LocateFailure::PatternNotFound)),
                Some(target) => Ok(target),
            },
        }
    }
}

/// Address and bytes of the code section of `module` together with the address of the
/// format string, or the verdict where the search ends before the code is scanned.
pub open spec fn locate_code(module: Seq<u8>) -> Result<(u64, Seq<u8>, u64), Verdict> {
    match locate_pattern(module) {
        Err(verdict) => Err(verdict),
        Ok(target) => match section_of(module, ".text"@) {
            None => Err(Verdict::Malformed),
            Some(None) => Err(Verdict::Missing(LocateFailure::TextSectionMissing)),
            Some(Some((address, data))) => Ok((address, data, target)),
        },
    }
}

/// The offset of the instruction that loads the address of the format string, or the
/// verdict where the search ends before it is known.
pub open spec fn locate_lea(module: Seq<u8>) -> Result<u64, Verdict> {
    match locate_code(module) {
        Err(verdict) => Err(verdict),
        Ok((address, data, target)) => match spec_lea_address(data, address, target) {
            None => Err(Verdict::Missing(LocateFailure::LeaNotFound)),
            Some(lea) => Ok(lea.wrapping_sub(image_base_of(module).unwrap())),
        },
    }
}

/// How locating the hooked routine in `module` ends.
pub open spec fn verdict(module: Seq<u8>) -> Verdict {
    match locate_lea(module) {
        Err(verdict) => verdict,
        Ok(lea_instr_offset) => match exception_directory_of(module) {
            None => Verdict::Malformed,
            Some(DirectoryLookup::NotPe64) => Verdict::Missing(LocateFailure::NotPe64),
            Some(DirectoryLookup::Missing) => Verdict::Missing(
                LocateFailure::ExceptionDirectoryMissing,
            ),
            Some(DirectoryLookup::Found(directory)) => match resolved_begin(
                directory,
                lea_instr_offset,
            ) {
                None => Verdict::Missing(
                    LocateFailure::FunctionNotFound { offset: lea_instr_offset },
                ),
                Some(begin) => Verdict::Located(
                    TargetFunction { function_offset: begin as u64, lea_instr_offset },
                ),
            },
        },
    }
}

/// Whether `error` is the way in which a `verdict` without the routine is reported.
pub open spec fn reports_error(error: Error, verdict: Verdict) -> bool {
    match verdict {
        Verdict::Located(_) => false,
        Verdict::Malformed => error is Object,
        Verdict::Missing(reason) => error == (Error::FindTargetFunction { reason }),
    }
}

/// Whether `found` is the way in which `verdict` is reported.
pub open spec fn reports(found: Result<TargetFunction, Error>, verdict: Verdict) -> bool {
    match found {
        Ok(target) => verdict == Verdict::Located(target),
        Err(error) => reports_error(error, verdict),
    }
}

/// Scan correctness at the locator. In a module whose code section holds one instruction
/// alone that loads the address of the format string, whatever else it holds, the
/// instruction that the locator goes by is that one.
pub proof fn lemma_locator_single_reference(module: Seq<u8>, at: int)
    requires
        locate_code(module) matches Ok((address, data, target)) && refers_to(
            data,
            address,
            target,
            at,
        ) && forall|other: int| refers_to(data, address, target, other) ==> other == at,
    ensures
        locate_code(module) matches Ok((address, data, target)) && locate_lea(module) == Ok::<
            u64,
            Verdict,
        >(candidate_address(address, at).wrapping_sub(image_base_of(module).unwrap())),
{
    let (address, data, target) = locate_code(module)->Ok_0;
    lemma_single_reference(data, address, target, at);
}

/// The steps of the search that come ahead of the scan: parsing, the `.rdata` section, the
/// format string in it, and the `.text` section. The result is the base address of the
/// image, the code section, and the address of the format string.
fn find_code<'a>(module: &'a [u8]) -> (found: Result<(u64, Section<'a>, u64), Error>)
    ensures
        match locate_code(module@) {
            Ok((address, data, target)) => found matches Ok((base, text, t))
                && image_base_of(module@) == Some(base) && text.address == address && text.data@
                == data && t == target,
            Err(verdict) => found matches Err(e) && reports_error(e, verdict),
        },
{
    let image_base = match read_image_base(module) {
        Ok(base) => base,
        Err(message) => {
            return Err(Error::Object { message });
        },
    };
    let rdata = match read_section(module, ".rdata") {
        Ok(Some(section)) => section,
        Ok(None) => {
            return Err(
                Error::FindTargetFunction { reason: LocateFailure::RdataSectionMissing },
            );
        },
        Err(message) => {
            return Err(Error::Object { message });
        },
    };
    let target = match find_pattern_address(rdata.data, rdata.address, TARGET_PATTERN.as_slice()) {
        Some(target) => target,
        None => {
            return Err(Error::FindTargetFunction { reason: LocateFailure::PatternNotFound });
        },
    };
    match read_section(module, ".text") {
        Ok(Some(text)) => Ok((image_base, text, target)),
        Ok(None) => Err(Error::FindTargetFunction { reason: LocateFailure::TextSectionMissing }),
        Err(message) => Err(Error::Object { message }),
    }
}

/// The steps of the search that come behind the scan: the image format, the exception
/// directory, and the function around the instruction that the scan has found.
fn find_function(module: &[u8], image_base: u64, lea: Option<u64>) -> (found: Result<
    TargetFunction,
    Error,
>)
    requires
        locate_code(module@) matches Ok((address, data, target)) && lea == spec_lea_address(
            data,
            address,
            target,
        ),
        image_base_of(module@) == Some(image_base),
    ensures
        reports(found, verdict(module@)),
{
    let lea_instr_offset = match lea {
        Some(address) => address.wrapping_sub(image_base),
        None => {
            return Err(Error::FindTargetFunction { reason: LocateFailure::LeaNotFound });
        },
    };
    let directory = match read_exception_directory(module) {
        Ok(ExceptionDirectory::Found(directory)) => directory,
        Ok(ExceptionDirectory::NotPe64) => {
            return Err(Error::FindTargetFunction { reason: LocateFailure::NotPe64 });
        },
        Ok(ExceptionDirectory::Missing) => {
            return Err(
                Error::FindTargetFunction { reason: LocateFailure::ExceptionDirectoryMissing },
            );
        },
        Err(message) => {
            return Err(Error::Object { message });
        },
    };
    match resolve_function_begin(directory, lea_instr_offset) {
        Some(begin) => Ok(TargetFunction { function_offset: begin as u64, lea_instr_offset }),
        None => Err(
            Error::FindTargetFunction {
                reason: LocateFailure::FunctionNotFound { offset: lea_instr_offset },
            },
        ),
    }
}

/// Locates the hooked routine in the bytes of the native module, with a disassembler that
/// is at hand. The outcome is the verdict on the module, whatever the module is.
pub fn locate_with(engine: &Disassembler, module: &[u8]) -> (found: Result<TargetFunction, Error>)
    ensures
        reports(found, verdict(module@)),
{
    let (image_base, text, target) = find_code(module)?;
    let lea = scan_lea(engine, text.data, text.address, target);
    find_function(module, image_base, lea)
}

/// Locates the hooked routine in the bytes of the native module.
///
/// The module has to be a 64-bit PE image with a `.rdata` and a `.text` section and an
/// exception directory. The result holds the offset of the routine and of the instruction
/// in it that loads the address of the format string. Nothing is tried twice: a module of
/// another shape does not hold the routine in the way that this search knows.
///
/// The steps run in this order, and the first that fails ends the search: parsing; the
/// `.rdata` section; the format string in it; the `.text` section; setting the
/// disassembler up; the instruction; the image format; the exception directory; the
/// function around the instruction. The disassembler is set up once the code section is at
/// hand, and that this goes well is the one thing that is not up to the module.
pub fn find_hook_function_offset(module: &[u8]) -> (found: Result<TargetFunction, Error>)
    ensures
        found matches Err(Error::Capstone { .. }) ==> locate_code(module@) is Ok,
        !(found matches Err(Error::Capstone { .. })) ==> reports(found, verdict(module@)),
{
    let (image_base, text, target) = find_code(module)?;
    let engine = Disassembler::build()?;
    let lea = scan_lea(&engine, text.data, text.address, target);
    find_function(module, image_base, lea)
}

} // verus!
