//! Key extraction on Windows: static analysis of the native module and the debug session.

pub mod bypass;
pub mod debug_process;
pub mod disasm;
pub mod env_detect;
pub mod image;
pub mod laws;
pub mod memory;
pub mod protocol;
pub mod resolver;
pub mod scanner;
pub mod session;
pub mod static_analysis;
pub mod steps;

pub use debug_process::DebugInfo;
pub use session::{debug_for_key, DebugSession};
pub use env_detect::InstalledQQInfo;
pub use disasm::Disassembler;
pub use static_analysis::{find_hook_function_offset, locate_with, TargetFunction};

use crate::util::{hex_u32, hex_u64, spec_hex_u32, spec_hex_u64};
use vstd::prelude::*;
use vstd::string::StringExecFns;

verus! {

/// Why the hooked routine could not be located in the native module.
#[derive(Clone, Copy, Debug, PartialEq, Eq, Structural)]
pub enum LocateFailure {
    /// The image has no `.rdata` section.
    RdataSectionMissing,
    /// The marker string does not occur in `.rdata`.
    PatternNotFound,
    /// The image has no `.text` section.
    TextSectionMissing,
    /// No instruction in `.text` loads the address of the marker string.
    LeaNotFound,
    /// The image is not a 64-bit PE file.
    NotPe64,
    /// The image has no exception directory.
    ExceptionDirectoryMissing,
    /// No record of the exception directory encloses the instruction at this offset.
    FunctionNotFound { offset: u64 },
}

/// The processor architectures that the program may have been built for.
#[derive(Clone, Copy, Debug, PartialEq, Eq, Structural)]
pub enum ProcessorArchitecture {
    X64,
    Arm64,
    Other,
}

/// The calls into the operating system that a debug session asks for and that may fail.
#[derive(Clone, Copy, Debug, PartialEq, Eq, Structural)]
pub enum WindowsOperation {
    /// Creating the process under the debugger.
    CreateProcess,
    /// Letting the program run on after a debug event.
    ContinueDebugEvent,
    /// Opening the thread that raised an exception.
    OpenThread,
    /// Reading the registers of a thread.
    GetThreadContext,
    /// Writing the registers of a thread.
    SetThreadContext,
    /// Ending the program once the key is known.
    TerminateProcess,
    /// Reading the byte that the breakpoint is going to replace.
    ReadOriginalByte,
    /// Writing the trap instruction for the first time.
    WriteBreakpoint,
    /// Writing a byte of code later on.
    WriteRemoteMemory,
    /// Flushing the instruction cache after a byte of code was written.
    FlushInstructionCache,
    /// Opening the registry key of the 32-bit installation.
    OpenRegistryKey32,
    /// Opening the registry key of the installation.
    OpenRegistryKey,
    /// Reading where the uninstaller of the installation is.
    ReadUninstallString,
}

/// Why a debug session ended without the key, apart from failed calls.
#[derive(Clone, Copy, Debug, PartialEq, Eq, Structural)]
pub enum DebugFailure {
    /// The program exited before the key came by.
    KeyNotFound,
    /// The process was created, but its handle is of no use.
    InvalidProcessHandle,
    /// The thread was opened, but its handle is of no use.
    InvalidThreadHandle,
    /// The byte under the breakpoint was not read.
    ReadOriginalByte,
    /// The trap instruction was not written.
    WriteBreakpoint,
    /// A byte of code was not written.
    WriteRemoteMemory,
    /// The host answered a request with the answer to another one.
    UnexpectedReply,
}

/// What went wrong while locating the hooked routine or while debugging for the key.
#[allow(inconsistent_fields)]
pub enum Error {
    /// The documents directory of the user is not known.
    LocateDocumentsDir,
    /// The documents directory holds no directory of the program.
    NoTencentFilesDir,
    /// No executable of the program where the installation is said to be.
    QQInstallationNotFound,
    /// Reading a file or a directory failed; `op` says what was tried and `message` what
    /// the system said.
    Io { op: String, message: String },
    /// A call into the operating system failed; `code` is the error code it gave, and
    /// `address` the address in the program that the call was about, where it was about
    /// one.
    WindowsOp { op: WindowsOperation, code: i32, address: Option<u64> },
    /// The debug session ended without the key; `address` is the address in the program
    /// at which it came to that, where there is one.
    DebugForKey { reason: DebugFailure, address: Option<u64> },
    /// The key cannot be read from a program built for this architecture.
    UnsupportedArchitecture { arch: ProcessorArchitecture },
    /// The native module could not be parsed; `message` is what the parser said.
    Object { message: String },
    /// The disassembler reported an error; `message` is what it said.
    Capstone { message: String },
    /// The module was parsed, but the routine is not where it is expected.
    FindTargetFunction { reason: LocateFailure },
}

impl LocateFailure {
    /// What the failure is called.
    pub open spec fn text(self) -> Seq<char> {
        match self {
            LocateFailure::RdataSectionMissing => ".rdata section not found"@,
            LocateFailure::PatternNotFound => "target pattern not found in .rdata section"@,
            LocateFailure::TextSectionMissing => ".text section not found"@,
            LocateFailure::LeaNotFound => "LEA instruction not found"@,
            LocateFailure::NotPe64 => "wrapper.node is not PE64 format"@,
            LocateFailure::ExceptionDirectoryMissing => "get exception data directory"@,
            LocateFailure::FunctionNotFound { offset } => "located function begin address through exception directory, for offset 0x"@
                + spec_hex_u64(offset),
        }
    }

    /// What the failure is called.
    pub fn describe(self) -> (text: String)
        ensures
            text@ == self.text(),
    {
        match self {
            LocateFailure::RdataSectionMissing => String::from_str(".rdata section not found"),
            LocateFailure::PatternNotFound => String::from_str(
                "target pattern not found in .rdata section",
            ),
            LocateFailure::TextSectionMissing => String::from_str(".text section not found"),
            LocateFailure::LeaNotFound => String::from_str("LEA instruction not found"),
            LocateFailure::NotPe64 => String::from_str("wrapper.node is not PE64 format"),
            LocateFailure::ExceptionDirectoryMissing => String::from_str(
                "get exception data directory",
            ),
            LocateFailure::FunctionNotFound { offset } => {
                let mut text = String::from_str(
                    "located function begin address through exception directory, for offset 0x",
                );
                let digits = hex_u64(offset);
                text.append(digits.as_str());
                text
            },
        }
    }
}

impl WindowsOperation {
    /// What the call is for.
    pub open spec fn text(self) -> Seq<char> {
        match self {
            WindowsOperation::CreateProcess => "create QQ process with debugging"@,
            WindowsOperation::ContinueDebugEvent => "continue debug event"@,
            WindowsOperation::OpenThread => "open thread"@,
            WindowsOperation::GetThreadContext => "get thread context"@,
            WindowsOperation::SetThreadContext => "set thread context"@,
            WindowsOperation::TerminateProcess => "terminate QQ process after key extraction"@,
            WindowsOperation::ReadOriginalByte => "read original byte for breakpoint"@,
            WindowsOperation::WriteBreakpoint => "write INT3 breakpoint"@,
            WindowsOperation::WriteRemoteMemory => "write remote memory"@,
            WindowsOperation::FlushInstructionCache => "flush instruction cache"@,
            WindowsOperation::OpenRegistryKey32 => "open 32-bit registry key for installed QQ"@,
            WindowsOperation::OpenRegistryKey => "open registry key for installed NTQQ"@,
            WindowsOperation::ReadUninstallString => "read UninstallString value from installed QQ registry key"@,
        }
    }

    /// What the call is for.
    pub fn describe(self) -> (text: &'static str)
        ensures
            text@ == self.text(),
    {
        match self {
            WindowsOperation::CreateProcess => "create QQ process with debugging",
            WindowsOperation::ContinueDebugEvent => "continue debug event",
            WindowsOperation::OpenThread => "open thread",
            WindowsOperation::GetThreadContext => "get thread context",
            WindowsOperation::SetThreadContext => "set thread context",
            WindowsOperation::TerminateProcess => "terminate QQ process after key extraction",
            WindowsOperation::ReadOriginalByte => "read original byte for breakpoint",
            WindowsOperation::WriteBreakpoint => "write INT3 breakpoint",
            WindowsOperation::WriteRemoteMemory => "write remote memory",
            WindowsOperation::FlushInstructionCache => "flush instruction cache",
            WindowsOperation::OpenRegistryKey32 => "open 32-bit registry key for installed QQ",
            WindowsOperation::OpenRegistryKey => "open registry key for installed NTQQ",
            WindowsOperation::ReadUninstallString => "read UninstallString value from installed QQ registry key",
        }
    }
}

impl DebugFailure {
    /// What the failure is called.
    pub open spec fn text(self) -> Seq<char> {
        match self {
            DebugFailure::KeyNotFound => "failed to find encryption key"@,
            DebugFailure::InvalidProcessHandle => "invalid process handle"@,
            DebugFailure::InvalidThreadHandle => "invalid thread handle"@,
            DebugFailure::ReadOriginalByte => "read original byte"@,
            DebugFailure::WriteBreakpoint => "write breakpoint"@,
            DebugFailure::WriteRemoteMemory => "write remote memory"@,
            DebugFailure::UnexpectedReply => "unexpected reply to a request"@,
        }
    }

    /// What the failure is called.
    pub fn describe(self) -> (text: &'static str)
        ensures
            text@ == self.text(),
    {
        match self {
            DebugFailure::KeyNotFound => "failed to find encryption key",
            DebugFailure::InvalidProcessHandle => "invalid process handle",
            DebugFailure::InvalidThreadHandle => "invalid thread handle",
            DebugFailure::ReadOriginalByte => "read original byte",
            DebugFailure::WriteBreakpoint => "write breakpoint",
            DebugFailure::WriteRemoteMemory => "write remote memory",
            DebugFailure::UnexpectedReply => "unexpected reply to a request",
        }
    }
}

impl ProcessorArchitecture {
    /// The name of the architecture.
    pub open spec fn text(self) -> Seq<char> {
        match self {
            ProcessorArchitecture::X64 => "x86_64"@,
            ProcessorArchitecture::Arm64 => "aarch64"@,
            ProcessorArchitecture::Other => "unknown"@,
        }
    }

    /// The name of the architecture.
    pub fn describe(self) -> (text: &'static str)
        ensures
            text@ == self.text(),
    {
        match self {
            ProcessorArchitecture::X64 => "x86_64",
            ProcessorArchitecture::Arm64 => "aarch64",
            ProcessorArchitecture::Other => "unknown",
        }
    }
}

/// The words that name an address, and no words where there is none.
pub open spec fn address_text(address: Option<u64>) -> Seq<char> {
    match address {
        Some(address) => " at 0x"@ + spec_hex_u64(address),
        None => Seq::empty(),
    }
}

/// Appends the words that name an address.
fn append_address(text: &mut String, address: Option<u64>)
    ensures
        final(text)@ == old(text)@ + address_text(address),
{
    match address {
        Some(address) => {
            let digits = hex_u64(address);
            text.append(" at 0x");
            text.append(digits.as_str());
            assert(text@ =~= old(text)@ + address_text(Some(address)));
        },
        None => {
            assert(text@ =~= old(text)@ + address_text(None));
        },
    }
}

impl Error {
    /// The error in words.
    pub open spec fn text(self) -> Seq<char> {
        match self {
            Error::LocateDocumentsDir => "no Documents dir located"@,
            Error::NoTencentFilesDir => "no Tencent Files dir located in Documents"@,
            Error::QQInstallationNotFound => "installed QQ not found"@,
            Error::Io { op, message } => "IO error when "@ + op@ + ": "@ + message@,
            Error::WindowsOp { op, code, address } => "Windows error when "@ + op.text() + ": 0x"@
                + spec_hex_u32(code as u32) + address_text(address),
            Error::DebugForKey { reason, address } => "debug for key: "@ + reason.text()
                + address_text(address),
            Error::UnsupportedArchitecture { arch } => "unsupported architecture: "@ + arch.text(),
            Error::Object { message } => message@,
            Error::Capstone { message } => message@,
            Error::FindTargetFunction { reason } => "find target function offset: "@
                + reason.text(),
        }
    }

    /// Writes the error out in words. The code of a failed call is written as eight
    /// hexadecimal digits, and an address or offset as sixteen.
    pub fn message(&self) -> (text: String)
        ensures
            text@ == self.text(),
    {
        match self {
            Error::LocateDocumentsDir => String::from_str("no Documents dir located"),
            Error::NoTencentFilesDir => String::from_str(
                "no Tencent Files dir located in Documents",
            ),
            Error::QQInstallationNotFound => String::from_str("installed QQ not found"),
            Error::Io { op, message } => {
                let mut text = String::from_str("IO error when ");
                text.append(op.as_str());
                text.append(": ");
                text.append(message.as_str());
                text
            },
            Error::WindowsOp { op, code, address } => {
                let mut text = String::from_str("Windows error when ");
                text.append(op.describe());
                text.append(": 0x");
                let digits = hex_u32(*code as u32);
                text.append(digits.as_str());
                append_address(&mut text, *address);
                text
            },
            Error::DebugForKey { reason, address } => {
                let mut text = String::from_str("debug for key: ");
                text.append(reason.describe());
                append_address(&mut text, *address);
                text
            },
            Error::UnsupportedArchitecture { arch } => {
                let mut text = String::from_str("unsupported architecture: ");
                text.append(arch.describe());
                text
            },
            Error::Object { message } => message.clone(),
            Error::Capstone { message } => message.clone(),
            Error::FindTargetFunction { reason } => {
                let mut text = String::from_str("find target function offset: ");
                let words = reason.describe();
                text.append(words.as_str());
                text
            },
        }
    }
}

} // verus!
