//! The rules of a debug session, as a machine.
//!
//! A session does nothing to the program by itself. It says what is to be done next, as a
//! [`Request`], is told how that went, as a [`Reply`], and says what is to be done after
//! that. Whoever drives it performs the requests in the order given, one at a time, until
//! the request is [`Request::Finish`].
//!
//! The session runs the program under the debugger, waits for the native module to be
//! loaded, puts a breakpoint on the hooked routine and looks at the string that each call
//! of the routine is handed. A string that passes for a key ends the session. After any
//! other string the thread steps over the disarmed breakpoint with the trap flag set, and
//! the breakpoint is put back when the single-step trap arrives.

use crate::ntqq::windows::debug_process::{
    spec_is_key, spec_module_base, spec_parse_string_data, spec_remote_string, Module, SoftwareBreakpoint, ThreadContext,
    ThreadStepState, ARGUMENT_LIMIT, EXCEPTION_BREAKPOINT, EXCEPTION_SINGLE_STEP, TRAP_FLAG,
    TRAP_OPCODE, WAIT_TIMEOUT_MS,
};
use crate::ntqq::windows::{DebugFailure, Error, WindowsOperation};
use vstd::prelude::*;

verus! {

/// File name of the native module that holds the hooked routine: `wrapper.node`.
pub const WRAPPER_MODULE: [u8; 12] = [
    0x77, 0x72, 0x61, 0x70, 0x70, 0x65, 0x72, 0x2e, 0x6e, 0x6f, 0x64, 0x65,
];

/// How the program goes on after a debug event.
#[derive(Clone, Copy, Debug, PartialEq, Eq, Structural)]
pub enum ContinueStatus {
    /// The event is dealt with.
    Continue,
    /// The exception is handed on to the program's own handlers.
    NotHandled,
}

/// What happened in the program.
#[derive(Clone, Copy, Debug, PartialEq, Eq, Structural)]
pub enum DebugEventKind {
    /// A thread raised an exception with this code at this address.
    Exception { code: u32, address: u64 },
    /// A thread was created.
    CreateThread,
    /// The process was created.
    CreateProcess,
    /// The process exited.
    ExitProcess { exit_code: u32 },
    /// A module was loaded.
    LoadDll,
    /// Anything else.
    Other,
}

/// A debug event: what happened, and in which process and thread.
#[derive(Clone, Copy, Debug, PartialEq, Eq, Structural)]
pub struct DebugEvent {
    pub process_id: u32,
    pub thread_id: u32,
    pub kind: DebugEventKind,
}

/// What the session asks to be done next.
#[derive(Clone, Copy, Debug, PartialEq, Eq, Structural)]
pub enum Request {
    /// Tell whether the executable of the installation is there.
    CheckExecutable,
    /// Create the process of the program, with this debugger attached to it alone.
    CreateProcess,
    /// Wait for the next debug event, for this many milliseconds at most.
    WaitForDebugEvent { timeout_ms: u32 },
    /// List the modules loaded into the process.
    ListModules { process_id: u32 },
    /// Read this many bytes of the program's memory.
    ReadMemory { address: u64, len: usize },
    /// Write one byte of the program's memory.
    WriteMemory { address: u64, byte: u8 },
    /// Flush the instruction cache for this many bytes.
    FlushInstructionCache { address: u64, len: usize },
    /// Open the thread with full access.
    OpenThread { thread_id: u32 },
    /// Read the registers of the open thread.
    GetThreadContext,
    /// Write instruction pointer and flags of the open thread, and its other registers as
    /// they were read.
    SetThreadContext { rip: u64, eflags: u32 },
    /// Close the handle of the open thread.
    CloseThread,
    /// Let the program run on after the event.
    ContinueDebugEvent { process_id: u32, thread_id: u32, status: ContinueStatus },
    /// End the program.
    TerminateProcess,
    /// Close the handle of the process.
    CloseProcess,
    /// Nothing more: the session is over.
    Finish,
}

/// How a request went.
pub enum Reply {
    /// The call succeeded and has nothing to tell.
    Done,
    /// The call failed with this error code.
    Failed { code: i32 },
    /// Whether the executable is there.
    Executable { is_file: bool },
    /// The process was created; the call hands out a handle of the process and one of its
    /// first thread, and each is of use or not.
    Process { process_id: u32, handle_valid: bool, thread_valid: bool },
    /// The wait ended without an event.
    Timeout,
    /// The wait ended with an event.
    Event(DebugEvent),
    /// The modules of the process.
    Modules(Vec<Module>),
    /// The bytes that were read, which may be fewer than were asked for.
    Memory { bytes: Vec<u8> },
    /// How many bytes were written.
    Written { count: usize },
    /// The thread was opened.
    Thread { handle_valid: bool },
    /// The registers of the thread.
    Context(ThreadContext),
}

/// Whether the session holds a handle.
#[derive(Clone, Copy, Debug, PartialEq, Eq, Structural)]
pub enum HandleState {
    /// No handle has been acquired.
    Absent,
    /// A handle is held and has to be closed.
    Held,
    /// The handle that was held has been closed.
    Released,
}

/// Where a session stands: the request that it waits on.
///
/// The stages follow the life of a session. It launches the program, waits for events and
/// for the native module, and arms the breakpoint. From then on each hit is looked at
/// (`Hit...`) and then either ends the session with the key (`Found...`) or is bypassed: the
/// thread is released to take one step (`Bypass...`) and the breakpoint is put back when
/// the step is over (`Step...`). A failure winds the session down (`Abort...`).
#[derive(Clone, Copy, Debug, PartialEq, Eq, Structural)]
pub enum Stage {
    /// Launching: is the executable there?
    CheckExecutable,
    /// Launching: the process is being created.
    CreateProcess,
    /// Launching: the handle of the first thread, which nothing is done with, is being
    /// closed.
    LaunchCloseThread,
    /// Waiting for the next debug event.
    Wait,
    /// A module was loaded: the modules are being listed.
    FindModule,
    /// Arming: the byte under the breakpoint is being read.
    ArmRead,
    /// Arming: the trap instruction is being written.
    ArmWrite,
    /// Arming: the instruction cache is being flushed.
    ArmFlush,
    /// A hit: the byte of the program is being written back.
    HitRestore,
    /// A hit: the instruction cache is being flushed.
    HitRestoreFlush,
    /// A hit: the thread is being opened.
    HitOpenThread,
    /// A hit: the registers of the thread are being read.
    HitGetContext,
    /// A hit: the string at the argument is being read.
    HitReadArgument,
    /// No key: the thread is being set back by one byte, with the trap flag set.
    BypassSetContext,
    /// No key: the thread is being closed.
    BypassCloseThread,
    /// The key: the trap instruction is being written back, as far as that goes.
    FoundRearm,
    /// The key: the instruction cache is being flushed, as far as that goes.
    FoundRearmFlush,
    /// The key: the thread is being closed.
    FoundCloseThread,
    /// The key: the program is being ended.
    FoundTerminate,
    /// The key: the handle of the process is being closed.
    FoundCloseProcess,
    /// After the step: the thread is being opened.
    StepOpenThread,
    /// After the step: the registers of the thread are being read.
    StepGetContext,
    /// After the step: the trap flag is being cleared.
    StepSetContext,
    /// After the step: the trap instruction is being written back.
    StepRearm,
    /// After the step: the instruction cache is being flushed.
    StepRearmFlush,
    /// After the step: the thread is being closed.
    StepCloseThread,
    /// The program is being let run on after the event.
    Continue,
    /// The process has exited: its handle is being closed.
    ExitCloseProcess,
    /// Winding down: the thread is being closed.
    AbortCloseThread,
    /// Winding down: the byte of the program is being written back, as far as that goes.
    AbortDisarm,
    /// Winding down: the program is being ended, as far as that goes.
    AbortTerminate,
    /// Winding down: the handle of the process is being closed.
    AbortCloseProcess,
    /// The session is over.
    Finished,
}

/// Why a session fails. A fault that came up at a request about an address in the program
/// holds that address.
#[derive(Clone, Copy, Debug)]
pub enum Fault {
    /// The executable is not there.
    NotInstalled,
    /// A call into the operating system failed.
    Windows { op: WindowsOperation, code: i32, address: Option<u64> },
    /// The session cannot go on.
    Debug { reason: DebugFailure, address: Option<u64> },
}

/// The plain part of the state of a session.
#[derive(Clone, Copy, Debug)]
pub struct Core {
    /// The request that the session waits on.
    pub stage: Stage,
    /// Offset of the hooked routine in the native module.
    pub target_rva: u64,
    /// Where the native module is loaded; zero until that is known.
    pub wrapper_base: u64,
    /// The breakpoint on the hooked routine, from the moment at which the byte under it
    /// has been read.
    pub breakpoint: Option<SoftwareBreakpoint>,
    /// The handle of the process.
    pub process: HandleState,
    /// The handle of the thread whose exception is being handled.
    pub thread: HandleState,
    /// Process of the event being handled.
    pub process_id: u32,
    /// Thread of the event being handled.
    pub thread_id: u32,
    /// How the program is to go on after the event being handled.
    pub status: ContinueStatus,
    /// Whether the event being handled is the exit of the process.
    pub exiting: bool,
    /// Where the trap instruction is going to be written: the address of the breakpoint
    /// that is being set, or put back after a single step.
    pub patch_address: u64,
    /// The registers read from the open thread.
    pub context: ThreadContext,
    /// Why the session fails, once it does.
    pub fault: Option<Fault>,
}

/// The state of a session in full.
#[verifier::ext_equal]
pub struct SessionView {
    pub core: Core,
    /// The threads that are stepping over the disarmed breakpoint.
    pub stepping: Map<u32, ThreadStepState>,
    /// The key, once a string has passed for one.
    pub key: Seq<u8>,
}

/// The state in which a session for a routine at offset `target_rva` begins.
pub open spec fn initial(target_rva: u64) -> SessionView {
    SessionView {
        core: Core {
            stage: Stage::CheckExecutable,
            target_rva,
            wrapper_base: 0,
            breakpoint: None,
            process: HandleState::Absent,
            thread: HandleState::Absent,
            process_id: 0,
            thread_id: 0,
            status: ContinueStatus::Continue,
            exiting: false,
            patch_address: 0,
            context: ThreadContext { rip: 0, r8: 0, eflags: 0 },
            fault: None,
        },
        stepping: Map::empty(),
        key: Seq::empty(),
    }
}

/// Address of the breakpoint, zero while there is none.
pub open spec fn breakpoint_address(core: Core) -> u64 {
    match core.breakpoint {
        Some(breakpoint) => breakpoint.address,
        None => 0,
    }
}

/// The byte under the breakpoint, zero while there is none.
pub open spec fn breakpoint_original(core: Core) -> u8 {
    match core.breakpoint {
        Some(breakpoint) => breakpoint.original_byte,
        None => 0,
    }
}

/// Whether the trap instruction is in place.
pub open spec fn breakpoint_active(core: Core) -> bool {
    match core.breakpoint {
        Some(breakpoint) => breakpoint.is_active,
        None => false,
    }
}

/// The state with the breakpoint marked as armed or disarmed.
pub open spec fn with_active(core: Core, is_active: bool) -> Core {
    match core.breakpoint {
        Some(breakpoint) => Core {
            breakpoint: Some(SoftwareBreakpoint { is_active, ..breakpoint }),
            ..core
        },
        None => core,
    }
}

/// The request that a session in this state waits on.
pub open spec fn pending(core: Core) -> Request {
    match core.stage {
        Stage::CheckExecutable => Request::CheckExecutable,
        Stage::CreateProcess => Request::CreateProcess,
        Stage::Wait => Request::WaitForDebugEvent { timeout_ms: WAIT_TIMEOUT_MS },
        Stage::FindModule => Request::ListModules { process_id: core.process_id },
        Stage::ArmRead => Request::ReadMemory { address: core.patch_address, len: 1 },
        Stage::ArmWrite | Stage::FoundRearm => Request::WriteMemory {
            address: breakpoint_address(core),
            byte: TRAP_OPCODE,
        },
        Stage::ArmFlush | Stage::HitRestoreFlush | Stage::FoundRearmFlush => {
            Request::FlushInstructionCache { address: breakpoint_address(core), len: 1 }
        },
        Stage::HitRestore | Stage::AbortDisarm => Request::WriteMemory {
            address: breakpoint_address(core),
            byte: breakpoint_original(core),
        },
        Stage::HitOpenThread | Stage::StepOpenThread => Request::OpenThread {
            thread_id: core.thread_id,
        },
        Stage::HitGetContext | Stage::StepGetContext => Request::GetThreadContext,
        Stage::HitReadArgument => Request::ReadMemory {
            address: core.context.r8,
            len: ARGUMENT_LIMIT,
        },
        Stage::BypassSetContext => Request::SetThreadContext {
            rip: core.context.rip.wrapping_sub(1),
            eflags: core.context.eflags | TRAP_FLAG,
        },
        Stage::StepSetContext => Request::SetThreadContext {
            rip: core.context.rip,
            eflags: core.context.eflags & !TRAP_FLAG,
        },
        Stage::StepRearm => Request::WriteMemory { address: core.patch_address, byte: TRAP_OPCODE },
        Stage::StepRearmFlush => Request::FlushInstructionCache {
            address: core.patch_address,
            len: 1,
        },
        Stage::LaunchCloseThread | Stage::BypassCloseThread | Stage::FoundCloseThread
        | Stage::StepCloseThread | Stage::AbortCloseThread => Request::CloseThread,
        Stage::Continue => Request::ContinueDebugEvent {
            process_id: core.process_id,
            thread_id: core.thread_id,
            status: core.status,
        },
        Stage::FoundTerminate | Stage::AbortTerminate => Request::TerminateProcess,
        Stage::FoundCloseProcess | Stage::ExitCloseProcess | Stage::AbortCloseProcess => {
            Request::CloseProcess
        },
        Stage::Finished => Request::Finish,
    }
}

/// The address in the program that the request of a session in this state is about, where
/// it is about one.
pub open spec fn attempted_address(core: Core) -> Option<u64> {
    match pending(core) {
        Request::ReadMemory { address, .. } => Some(address),
        Request::WriteMemory { address, .. } => Some(address),
        Request::FlushInstructionCache { address, .. } => Some(address),
        _ => None,
    }
}

/// The fault of a call that failed in this state.
pub open spec fn windows_fault(core: Core, op: WindowsOperation, code: i32) -> Fault {
    Fault::Windows { op, code, address: attempted_address(core) }
}

/// The fault of a session that cannot go on from this state.
pub open spec fn debug_fault(core: Core, reason: DebugFailure) -> Fault {
    Fault::Debug { reason, address: attempted_address(core) }
}

/// The state at the next stage of winding a session down: the thread is closed first, then
/// the breakpoint is taken out if it is in place, then the program is ended and its handle
/// closed. What is not held is not closed.
pub open spec fn wind_down(core: Core) -> Core {
    if core.thread is Held {
        Core { stage: Stage::AbortCloseThread, ..core }
    } else if core.process is Held {
        if breakpoint_active(core) {
            Core { stage: Stage::AbortDisarm, ..core }
        } else {
            Core { stage: Stage::AbortTerminate, ..core }
        }
    } else {
        Core { stage: Stage::Finished, ..core }
    }
}

/// The state after the session has failed: the fault is kept and the session winds down.
pub open spec fn abort(core: Core, fault: Fault) -> Core {
    wind_down(Core { fault: Some(fault), ..core })
}

/// The state after a request for which only success or failure is told has been answered:
/// on `Done` the session moves to `then`, on a failure it fails with the code given, and on
/// any other answer it fails as well.
pub open spec fn done_or_abort(core: Core, reply: Reply, then: Stage, op: WindowsOperation) -> Core {
    match reply {
        Reply::Done => Core { stage: then, ..core },
        Reply::Failed { code } => abort(core, windows_fault(core, op, code)),
        _ => abort(core, debug_fault(core, DebugFailure::UnexpectedReply)),
    }
}

/// The state after a byte was to be written that has to be written: with one byte written
/// the breakpoint is marked as `is_active` and the session moves to `then`; anything else
/// fails the session.
pub open spec fn written_or_abort(
    core: Core,
    reply: Reply,
    is_active: bool,
    then: Stage,
    op: WindowsOperation,
    short: DebugFailure,
) -> Core {
    match reply {
        Reply::Written { count } => if count == 1 {
            Core { stage: then, ..with_active(core, is_active) }
        } else {
            abort(core, debug_fault(core, short))
        },
        Reply::Failed { code } => abort(core, windows_fault(core, op, code)),
        _ => abort(core, debug_fault(core, DebugFailure::UnexpectedReply)),
    }
}

/// The state after a thread was to be opened.
pub open spec fn opened_or_abort(core: Core, reply: Reply, then: Stage) -> Core {
    match reply {
        Reply::Thread { handle_valid } => if handle_valid {
            Core { stage: then, thread: HandleState::Held, ..core }
        } else {
            abort(core, debug_fault(core, DebugFailure::InvalidThreadHandle))
        },
        Reply::Failed { code } => abort(
            core,
            windows_fault(core, WindowsOperation::OpenThread, code),
        ),
        _ => abort(core, debug_fault(core, DebugFailure::UnexpectedReply)),
    }
}

/// The state after the registers of the open thread were to be read.
pub open spec fn context_or_abort(core: Core, reply: Reply, then: Stage) -> Core {
    match reply {
        Reply::Context(context) => Core { stage: then, context, ..core },
        Reply::Failed { code } => abort(
            core,
            windows_fault(core, WindowsOperation::GetThreadContext, code),
        ),
        _ => abort(core, debug_fault(core, DebugFailure::UnexpectedReply)),
    }
}

/// The state after a debug event has arrived.
///
/// A breakpoint trap at the armed breakpoint starts the look at the argument. A single-step
/// trap of a thread that is stepping over the breakpoint starts putting the breakpoint
/// back. A module loaded while the native module has not been seen starts the search for
/// it. The exit of the process is the last event. Everything else only lets the
/// program run on: a breakpoint trap elsewhere as dealt with, any other exception as not
/// handled.
pub open spec fn on_event(view: SessionView, event: DebugEvent) -> SessionView {
    let core = Core {
        process_id: event.process_id,
        thread_id: event.thread_id,
        status: ContinueStatus::Continue,
        exiting: false,
        stage: Stage::Continue,
        ..view.core
    };
    match event.kind {
        DebugEventKind::Exception { code, address } => if code == EXCEPTION_BREAKPOINT {
            if breakpoint_active(core) && address == breakpoint_address(core) {
                SessionView { core: Core { stage: Stage::HitRestore, ..core }, ..view }
            } else {
                SessionView { core, ..view }
            }
        } else if code == EXCEPTION_SINGLE_STEP && view.stepping.contains_key(event.thread_id) {
            SessionView {
                core: Core {
                    stage: Stage::StepOpenThread,
                    patch_address: view.stepping[event.thread_id].breakpoint_address,
                    ..core
                },
                stepping: view.stepping.remove(event.thread_id),
                ..view
            }
        } else {
            SessionView { core: Core { status: ContinueStatus::NotHandled, ..core }, ..view }
        },
        DebugEventKind::LoadDll => if core.wrapper_base == 0 && core.breakpoint is None {
            SessionView { core: Core { stage: Stage::FindModule, ..core }, ..view }
        } else {
            SessionView { core, ..view }
        },
        DebugEventKind::ExitProcess { exit_code } => SessionView {
            core: Core { exiting: true, ..core },
            ..view
        },
        _ => SessionView { core, ..view },
    }
}

/// The state after the process was created. Each handle that is of use is held from then
/// on. With the handle of the process the session goes on, closing the handle of the first
/// thread before anything else; without it the session fails.
pub open spec fn on_process(core: Core, handle_valid: bool, thread_valid: bool) -> Core {
    let held = Core {
        process: if handle_valid {
            HandleState::Held
        } else {
            core.process
        },
        thread: if thread_valid {
            HandleState::Held
        } else {
            core.thread
        },
        ..core
    };
    if !handle_valid {
        abort(held, debug_fault(held, DebugFailure::InvalidProcessHandle))
    } else if thread_valid {
        Core { stage: Stage::LaunchCloseThread, ..held }
    } else {
        Core { stage: Stage::Wait, ..held }
    }
}

/// The state after the modules of the process were listed: with the native module among
/// them the breakpoint is set on the hooked routine, and else the program runs on.
pub open spec fn on_modules(core: Core, base: Option<u64>) -> Core {
    match base {
        Some(base) => Core {
            stage: Stage::ArmRead,
            wrapper_base: base,
            patch_address: base.wrapping_add(core.target_rva),
            ..core
        },
        None => Core { stage: Stage::Continue, ..core },
    }
}

/// The state after the string at the argument was read, or was not.
pub open spec fn on_argument(view: SessionView, argument: Seq<u8>) -> SessionView {
    if spec_is_key(argument) {
        SessionView { core: Core { stage: Stage::FoundRearm, ..view.core }, key: argument, ..view }
    } else {
        SessionView { core: Core { stage: Stage::BypassSetContext, ..view.core }, ..view }
    }
}

/// The state of a session after the request it waited on was answered with `reply`.
pub open spec fn next(view: SessionView, reply: Reply) -> SessionView {
    let core = view.core;
    let unexpected = SessionView {
        core: abort(core, debug_fault(core, DebugFailure::UnexpectedReply)),
        ..view
    };
    match core.stage {
        Stage::CheckExecutable => match reply {
            Reply::Executable { is_file } => if is_file {
                SessionView { core: Core { stage: Stage::CreateProcess, ..core }, ..view }
            } else {
                SessionView { core: abort(core, Fault::NotInstalled), ..view }
            },
            _ => unexpected,
        },
        Stage::CreateProcess => match reply {
            Reply::Process { process_id, handle_valid, thread_valid } => SessionView {
                core: on_process(core, handle_valid, thread_valid),
                ..view
            },
            Reply::Failed { code } => SessionView {
                core: abort(core, windows_fault(core, WindowsOperation::CreateProcess, code)),
                ..view
            },
            _ => unexpected,
        },
        Stage::LaunchCloseThread => SessionView {
            core: Core { stage: Stage::Wait, thread: HandleState::Released, ..core },
            ..view
        },
        Stage::Wait => match reply {
            Reply::Event(event) => on_event(view, event),
            Reply::Timeout | Reply::Failed { .. } => view,
            _ => unexpected,
        },
        Stage::FindModule => match reply {
            Reply::Modules(modules) => SessionView {
                core: on_modules(core, spec_module_base(modules@, WRAPPER_MODULE@)),
                ..view
            },
            Reply::Failed { .. } => SessionView {
                core: Core { stage: Stage::Continue, ..core },
                ..view
            },
            _ => unexpected,
        },
        Stage::ArmRead => match reply {
            Reply::Memory { bytes } => if bytes@.len() == 1 {
                SessionView {
                    core: Core {
                        stage: Stage::ArmWrite,
                        breakpoint: Some(
                            SoftwareBreakpoint {
                                address: core.patch_address,
                                original_byte: bytes@[0],
                                is_active: false,
                            },
                        ),
                        ..core
                    },
                    ..view
                }
            } else {
                SessionView {
                    core: abort(core, debug_fault(core, DebugFailure::ReadOriginalByte)),
                    ..view
                }
            },
            Reply::Failed { code } => SessionView {
                core: abort(
                    core,
                    windows_fault(core, WindowsOperation::ReadOriginalByte, code),
                ),
                ..view
            },
            _ => unexpected,
        },
        Stage::ArmWrite => SessionView {
            core: written_or_abort(
                core,
                reply,
                true,
                Stage::ArmFlush,
                WindowsOperation::WriteBreakpoint,
                DebugFailure::WriteBreakpoint,
            ),
            ..view
        },
        Stage::ArmFlush => SessionView {
            core: done_or_abort(
                core,
                reply,
                Stage::Continue,
                WindowsOperation::FlushInstructionCache,
            ),
            ..view
        },
        Stage::HitRestore => SessionView {
            core: written_or_abort(
                core,
                reply,
                false,
                Stage::HitRestoreFlush,
                WindowsOperation::WriteRemoteMemory,
                DebugFailure::WriteRemoteMemory,
            ),
            ..view
        },
        Stage::HitRestoreFlush => SessionView {
            core: done_or_abort(
                core,
                reply,
                Stage::HitOpenThread,
                WindowsOperation::FlushInstructionCache,
            ),
            ..view
        },
        Stage::HitOpenThread => SessionView {
            core: opened_or_abort(core, reply, Stage::HitGetContext),
            ..view
        },
        Stage::HitGetContext => SessionView {
            core: context_or_abort(core, reply, Stage::HitReadArgument),
            ..view
        },
        Stage::HitReadArgument => match reply {
            Reply::Memory { bytes } => on_argument(
                view,
                spec_remote_string(bytes@, ARGUMENT_LIMIT as int),
            ),
            Reply::Failed { .. } => on_argument(view, Seq::empty()),
            _ => unexpected,
        },
        Stage::BypassSetContext => match reply {
            Reply::Done => SessionView {
                core: Core { stage: Stage::BypassCloseThread, ..core },
                stepping: view.stepping.insert(
                    core.thread_id,
                    ThreadStepState { breakpoint_address: breakpoint_address(core) },
                ),
                ..view
            },
            Reply::Failed { code } => SessionView {
                core: abort(
                    core,
                    windows_fault(core, WindowsOperation::SetThreadContext, code),
                ),
                ..view
            },
            _ => unexpected,
        },
        Stage::BypassCloseThread | Stage::StepCloseThread => SessionView {
            core: Core { stage: Stage::Continue, thread: HandleState::Released, ..core },
            ..view
        },
        Stage::FoundRearm => match reply {
            Reply::Written { count } => if count == 1 {
                SessionView {
                    core: Core { stage: Stage::FoundRearmFlush, ..with_active(core, true) },
                    ..view
                }
            } else {
                SessionView { core: Core { stage: Stage::FoundCloseThread, ..core }, ..view }
            },
            _ => SessionView { core: Core { stage: Stage::FoundCloseThread, ..core }, ..view },
        },
        Stage::FoundRearmFlush => SessionView {
            core: Core { stage: Stage::FoundCloseThread, ..core },
            ..view
        },
        Stage::FoundCloseThread => SessionView {
            core: Core { stage: Stage::FoundTerminate, thread: HandleState::Released, ..core },
            ..view
        },
        Stage::FoundTerminate => SessionView {
            core: done_or_abort(
                core,
                reply,
                Stage::FoundCloseProcess,
                WindowsOperation::TerminateProcess,
            ),
            ..view
        },
        Stage::FoundCloseProcess | Stage::ExitCloseProcess | Stage::AbortCloseProcess => {
            SessionView {
                core: Core { stage: Stage::Finished, process: HandleState::Released, ..core },
                ..view
            }
        },
        Stage::StepOpenThread => SessionView {
            core: opened_or_abort(core, reply, Stage::StepGetContext),
            ..view
        },
        Stage::StepGetContext => SessionView {
            core: context_or_abort(core, reply, Stage::StepSetContext),
            ..view
        },
        Stage::StepSetContext => SessionView {
            core: done_or_abort(core, reply, Stage::StepRearm, WindowsOperation::SetThreadContext),
            ..view
        },
        Stage::StepRearm => SessionView {
            core: written_or_abort(
                core,
                reply,
                true,
                Stage::StepRearmFlush,
                WindowsOperation::WriteRemoteMemory,
                DebugFailure::WriteRemoteMemory,
            ),
            ..view
        },
        Stage::StepRearmFlush => SessionView {
            core: done_or_abort(
                core,
                reply,
                Stage::StepCloseThread,
                WindowsOperation::FlushInstructionCache,
            ),
            ..view
        },
        Stage::Continue => match reply {
            Reply::Done => if core.exiting {
                SessionView {
                    core: Core {
                        stage: Stage::ExitCloseProcess,
                        fault: Some(debug_fault(core, DebugFailure::KeyNotFound)),
                        ..core
                    },
                    ..view
                }
            } else {
                SessionView { core: Core { stage: Stage::Wait, ..core }, ..view }
            },
            Reply::Failed { code } => SessionView {
                core: abort(
                    core,
                    windows_fault(core, WindowsOperation::ContinueDebugEvent, code),
                ),
                ..view
            },
            _ => unexpected,
        },
        Stage::AbortCloseThread => SessionView {
            core: wind_down(Core { thread: HandleState::Released, ..core }),
            ..view
        },
        Stage::AbortDisarm => match reply {
            Reply::Written { count } => if count == 1 {
                SessionView {
                    core: Core { stage: Stage::AbortTerminate, ..with_active(core, false) },
                    ..view
                }
            } else {
                SessionView { core: Core { stage: Stage::AbortTerminate, ..core }, ..view }
            },
            _ => SessionView { core: Core { stage: Stage::AbortTerminate, ..core }, ..view },
        },
        Stage::AbortTerminate => SessionView {
            core: Core { stage: Stage::AbortCloseProcess, ..core },
            ..view
        },
        Stage::Finished => view,
    }
}

/// The states that a session passes through.
#[derive(Clone, Copy, Debug, PartialEq, Eq, Structural)]
pub enum Phase {
    /// The program is being started under the debugger.
    Launching,
    /// The program runs, and the native module has not been seen, or the breakpoint is
    /// being set.
    WaitingForModule,
    /// The breakpoint is in place and the program runs.
    Armed,
    /// The breakpoint was hit, and the call is being looked at.
    EvaluatingHit,
    /// A thread steps over the breakpoint, or the breakpoint is being put back behind it.
    SteppingOver,
    /// A key was read: the session is ending, or has ended, with the key.
    Found,
    /// The session is ending, or has ended, without the key.
    Aborted,
}

/// The state that a session is in.
pub open spec fn phase(view: SessionView) -> Phase {
    match view.core.stage {
        Stage::CheckExecutable | Stage::CreateProcess | Stage::LaunchCloseThread => {
            Phase::Launching
        },
        Stage::FindModule | Stage::ArmRead | Stage::ArmWrite | Stage::ArmFlush => {
            Phase::WaitingForModule
        },
        Stage::Wait | Stage::Continue => if view.core.exiting {
            Phase::Aborted
        } else if view.core.breakpoint is None {
            Phase::WaitingForModule
        } else if breakpoint_active(view.core) {
            Phase::Armed
        } else {
            Phase::SteppingOver
        },
        Stage::HitRestore | Stage::HitRestoreFlush | Stage::HitOpenThread | Stage::HitGetContext
        | Stage::HitReadArgument | Stage::BypassSetContext | Stage::BypassCloseThread => {
            Phase::EvaluatingHit
        },
        Stage::StepOpenThread | Stage::StepGetContext | Stage::StepSetContext | Stage::StepRearm
        | Stage::StepRearmFlush | Stage::StepCloseThread => Phase::SteppingOver,
        Stage::FoundRearm | Stage::FoundRearmFlush | Stage::FoundCloseThread
        | Stage::FoundTerminate | Stage::FoundCloseProcess => Phase::Found,
        Stage::ExitCloseProcess | Stage::AbortCloseThread | Stage::AbortDisarm
        | Stage::AbortTerminate | Stage::AbortCloseProcess => Phase::Aborted,
        Stage::Finished => if view.core.fault is None {
            Phase::Found
        } else {
            Phase::Aborted
        },
    }
}

/// What a session that is over has to show: the key, or why there is none. `None` while the
/// session is not over.
pub open spec fn spec_outcome(view: SessionView) -> Option<Result<Seq<char>, Fault>> {
    if view.core.stage is Finished {
        match view.core.fault {
            Some(fault) => Some(Err(fault)),
            None => Some(Ok(spec_parse_string_data(view.key))),
        }
    } else {
        None
    }
}

/// The error that stands for a fault.
pub open spec fn spec_error(fault: Fault) -> Error {
    match fault {
        Fault::NotInstalled => Error::QQInstallationNotFound,
        Fault::Windows { op, code, address } => Error::WindowsOp { op, code, address },
        Fault::Debug { reason, address } => Error::DebugForKey { reason, address },
    }
}

} // verus!
