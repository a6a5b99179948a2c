//! The debug session.
//!
//! [`debug_for_key`] sets a session up and [`DebugSession::step`] moves it on, by the rules
//! laid down in the protocol. The session is over when it asks for [`Request::Finish`];
//! [`DebugSession::outcome`] then holds the key or the reason why there is none.

use crate::ntqq::windows::debug_process::{
    get_module_base, is_key, parse_string_data, read_remote_string, spec_is_key, DebugInfo,
    SoftwareBreakpoint, ThreadContext, ThreadStepState, ARGUMENT_LIMIT, EXCEPTION_BREAKPOINT,
    EXCEPTION_SINGLE_STEP, KEY_LENGTH, TRAP_FLAG, TRAP_OPCODE, WAIT_TIMEOUT_MS,
};
use crate::ntqq::windows::laws::{consistent, lemma_initial_consistent, lemma_next_consistent};
use crate::ntqq::windows::protocol::{
    abort, context_or_abort, done_or_abort, initial, next, opened_or_abort, pending, spec_error,
    spec_outcome, wind_down, with_active, written_or_abort, ContinueStatus, Core, DebugEvent,
    DebugEventKind, Fault, HandleState, Phase, Reply, Request, SessionView, Stage,
    WRAPPER_MODULE,
};
use crate::ntqq::windows::{DebugFailure, Error, ProcessorArchitecture, WindowsOperation};
use crate::ntqq::DBDecryptInfo;
use crate::util::spec_ascii_string;
use std::collections::HashMap;
use vstd::prelude::*;

verus! {

broadcast use vstd::std_specs::hash::group_hash_axioms;

/// A debug session.
pub struct DebugSession {
    core: Core,
    stepping_threads: HashMap<u32, ThreadStepState>,
    key: Vec<u8>,
}

impl View for DebugSession {
    type V = SessionView;

    closed spec fn view(&self) -> SessionView {
        SessionView { core: self.core, stepping: self.stepping_threads@, key: self.key@ }
    }
}

/// Sets up a debug session for the routine that `info` names.
///
/// The key can only be read from a program built for 64-bit x86: the session reads the
/// argument from a register of that architecture. For any other architecture there is no
/// session.
pub fn debug_for_key(info: &DebugInfo, arch: ProcessorArchitecture) -> (session: Result<
    DebugSession,
    Error,
>)
    ensures
        match session {
            Ok(s) => arch == ProcessorArchitecture::X64 && s@ == initial(
                info.func.function_offset,
            ) && consistent(s@),
            Err(e) => arch != ProcessorArchitecture::X64 && e == (Error::UnsupportedArchitecture {
                arch,
            }),
        },
{
    proof {
        lemma_initial_consistent(info.func.function_offset);
    }
    match arch {
        ProcessorArchitecture::X64 => Ok(
            DebugSession {
                core: Core {
                    stage: Stage::CheckExecutable,
                    target_rva: info.func.function_offset,
                    wrapper_base: 0,
                    breakpoint: None,
                    process: HandleState::Absent,
                    thread: HandleState::Absent,
                    process_id: 0,
                    thread_id: 0,
                    status: ContinueStatus::Continue,
                    exiting: false,
                    patch_address: 0,
                    context: ThreadContext { rip: 0, r8: 0, eflags: 0 },
                    fault: None,
                },
                stepping_threads: HashMap::new(),
                key: Vec::new(),
            },
        ),
        _ => Err(Error::UnsupportedArchitecture { arch }),
    }
}

fn breakpoint_address(core: Core) -> (address: u64)
    ensures
        address == crate::ntqq::windows::protocol::breakpoint_address(core),
{
    match core.breakpoint {
        Some(breakpoint) => breakpoint.address,
        None => 0,
    }
}

fn breakpoint_original(core: Core) -> (byte: u8)
    ensures
        byte == crate::ntqq::windows::protocol::breakpoint_original(core),
{
    match core.breakpoint {
        Some(breakpoint) => breakpoint.original_byte,
        None => 0,
    }
}

fn breakpoint_active(core: Core) -> (active: bool)
    ensures
        active == crate::ntqq::windows::protocol::breakpoint_active(core),
{
    match core.breakpoint {
        Some(breakpoint) => breakpoint.is_active,
        None => false,
    }
}

fn set_active(core: Core, is_active: bool) -> (marked: Core)
    ensures
        marked == with_active(core, is_active),
{
    match core.breakpoint {
        Some(breakpoint) => Core {
            breakpoint: Some(SoftwareBreakpoint { is_active, ..breakpoint }),
            ..core
        },
        None => core,
    }
}

fn attempted_address(core: Core) -> (address: Option<u64>)
    ensures
        address == crate::ntqq::windows::protocol::attempted_address(core),
{
    match request_of(core) {
        Request::ReadMemory { address, len } => Some(address),
        Request::WriteMemory { address, byte } => Some(address),
        Request::FlushInstructionCache { address, len } => Some(address),
        _ => None,
    }
}

fn windows_fault(core: Core, op: WindowsOperation, code: i32) -> (fault: Fault)
    ensures
        fault == crate::ntqq::windows::protocol::windows_fault(core, op, code),
{
    Fault::Windows { op, code, address: attempted_address(core) }
}

fn debug_fault(core: Core, reason: DebugFailure) -> (fault: Fault)
    ensures
        fault == crate::ntqq::windows::protocol::debug_fault(core, reason),
{
    Fault::Debug { reason, address: attempted_address(core) }
}

fn at_stage(core: Core, stage: Stage) -> (moved: Core)
    ensures
        moved == (Core { stage, ..core }),
{
    Core { stage, ..core }
}

fn begin_wind_down(core: Core) -> (wound: Core)
    ensures
        wound == wind_down(core),
{
    match core.thread {
        HandleState::Held => at_stage(core, Stage::AbortCloseThread),
        _ => match core.process {
            HandleState::Held => {
                if breakpoint_active(core) {
                    at_stage(core, Stage::AbortDisarm)
                } else {
                    at_stage(core, Stage::AbortTerminate)
                }
            },
            _ => at_stage(core, Stage::Finished),
        },
    }
}

fn fail(core: Core, fault: Fault) -> (failed: Core)
    ensures
        failed == abort(core, fault),
{
    begin_wind_down(Core { fault: Some(fault), ..core })
}

fn fail_unexpected(core: Core) -> (failed: Core)
    ensures
        failed == abort(
            core,
            crate::ntqq::windows::protocol::debug_fault(core, DebugFailure::UnexpectedReply),
        ),
{
    fail(core, debug_fault(core, DebugFailure::UnexpectedReply))
}

fn after_create_process(core: Core, handle_valid: bool, thread_valid: bool) -> (moved: Core)
    ensures
        moved == crate::ntqq::windows::protocol::on_process(core, handle_valid, thread_valid),
{
    let held = Core {
        process: if handle_valid {
            HandleState::Held
        } else {
            core.process
        },
        thread: if thread_valid {
            HandleState::Held
        } else {
            core.thread
        },
        ..core
    };
    if !handle_valid {
        fail(held, debug_fault(held, DebugFailure::InvalidProcessHandle))
    } else if thread_valid {
        at_stage(held, Stage::LaunchCloseThread)
    } else {
        at_stage(held, Stage::Wait)
    }
}

fn after_call(core: Core, reply: &Reply, then: Stage, op: WindowsOperation) -> (moved: Core)
    ensures
        moved == done_or_abort(core, *reply, then, op),
{
    match reply {
        Reply::Done => at_stage(core, then),
        Reply::Failed { code } => fail(core, windows_fault(core, op, *code)),
        _ => fail_unexpected(core),
    }
}

fn after_write(
    core: Core,
    reply: &Reply,
    is_active: bool,
    then: Stage,
    op: WindowsOperation,
    short: DebugFailure,
) -> (moved: Core)
    ensures
        moved == written_or_abort(core, *reply, is_active, then, op, short),
{
    match reply {
        Reply::Written { count } => {
            if *count == 1 {
                at_stage(set_active(core, is_active), then)
            } else {
                fail(core, debug_fault(core, short))
            }
        },
        Reply::Failed { code } => fail(core, windows_fault(core, op, *code)),
        _ => fail_unexpected(core),
    }
}

fn after_open_thread(core: Core, reply: &Reply, then: Stage) -> (moved: Core)
    ensures
        moved == opened_or_abort(core, *reply, then),
{
    match reply {
        Reply::Thread { handle_valid } => {
            if *handle_valid {
                Core { stage: then, thread: HandleState::Held, ..core }
            } else {
                fail(core, debug_fault(core, DebugFailure::InvalidThreadHandle))
            }
        },
        Reply::Failed { code } => fail(
            core,
            windows_fault(core, WindowsOperation::OpenThread, *code),
        ),
        _ => fail_unexpected(core),
    }
}

fn after_get_context(core: Core, reply: &Reply, then: Stage) -> (moved: Core)
    ensures
        moved == context_or_abort(core, *reply, then),
{
    match reply {
        Reply::Context(context) => Core { stage: then, context: *context, ..core },
        Reply::Failed { code } => fail(
            core,
            windows_fault(core, WindowsOperation::GetThreadContext, *code),
        ),
        _ => fail_unexpected(core),
    }
}

/// The request that goes with a state.
fn request_of(core: Core) -> (request: Request)
    ensures
        request == pending(core),
{
    match core.stage {
        Stage::CheckExecutable => Request::CheckExecutable,
        Stage::CreateProcess => Request::CreateProcess,
        Stage::Wait => Request::WaitForDebugEvent { timeout_ms: WAIT_TIMEOUT_MS },
        Stage::FindModule => Request::ListModules { process_id: core.process_id },
        Stage::ArmRead => Request::ReadMemory { address: core.patch_address, len: 1 },
        Stage::ArmWrite | Stage::FoundRearm => Request::WriteMemory {
            address: breakpoint_address(core),
            byte: TRAP_OPCODE,
        },
        Stage::ArmFlush | Stage::HitRestoreFlush | Stage::FoundRearmFlush => {
            Request::FlushInstructionCache { address: breakpoint_address(core), len: 1 }
        },
        Stage::HitRestore | Stage::AbortDisarm => Request::WriteMemory {
            address: breakpoint_address(core),
            byte: breakpoint_original(core),
        },
        Stage::HitOpenThread | Stage::StepOpenThread => Request::OpenThread {
            thread_id: core.thread_id,
        },
        Stage::HitGetContext | Stage::StepGetContext => Request::GetThreadContext,
        Stage::HitReadArgument => Request::ReadMemory {
            address: core.context.r8,
            len: ARGUMENT_LIMIT,
        },
        Stage::BypassSetContext => Request::SetThreadContext {
            rip: core.context.rip.wrapping_sub(1),
            eflags: core.context.eflags | TRAP_FLAG,
        },
        Stage::StepSetContext => Request::SetThreadContext {
            rip: core.context.rip,
            eflags: core.context.eflags & !TRAP_FLAG,
        },
        Stage::StepRearm => Request::WriteMemory { address: core.patch_address, byte: TRAP_OPCODE },
        Stage::StepRearmFlush => Request::FlushInstructionCache {
            address: core.patch_address,
            len: 1,
        },
        Stage::LaunchCloseThread | Stage::BypassCloseThread | Stage::FoundCloseThread
        | Stage::StepCloseThread | Stage::AbortCloseThread => Request::CloseThread,
        Stage::Continue => Request::ContinueDebugEvent {
            process_id: core.process_id,
            thread_id: core.thread_id,
            status: core.status,
        },
        Stage::FoundTerminate | Stage::AbortTerminate => Request::TerminateProcess,
        Stage::FoundCloseProcess | Stage::ExitCloseProcess | Stage::AbortCloseProcess => {
            Request::CloseProcess
        },
        Stage::Finished => Request::Finish,
    }
}

impl DebugSession {
    /// The request that the session waits on.
    pub fn request(&self) -> (request: Request)
        ensures
            request == pending(self@.core),
    {
        request_of(self.core)
    }

    /// Whether the session is over.
    pub fn is_finished(&self) -> (finished: bool)
        ensures
            finished == (self@.core.stage is Finished),
    {
        match self.core.stage {
            Stage::Finished => true,
            _ => false,
        }
    }

    /// The state that the session is in.
    pub fn phase(&self) -> (phase: Phase)
        ensures
            phase == crate::ntqq::windows::protocol::phase(self@),
    {
        match self.core.stage {
            Stage::CheckExecutable | Stage::CreateProcess | Stage::LaunchCloseThread => {
                Phase::Launching
            },
            Stage::FindModule | Stage::ArmRead | Stage::ArmWrite | Stage::ArmFlush => {
                Phase::WaitingForModule
            },
            Stage::Wait | Stage::Continue => {
                if self.core.exiting {
                    Phase::Aborted
                } else if self.core.breakpoint.is_none() {
                    Phase::WaitingForModule
                } else if breakpoint_active(self.core) {
                    Phase::Armed
                } else {
                    Phase::SteppingOver
                }
            },
            Stage::HitRestore | Stage::HitRestoreFlush | Stage::HitOpenThread
            | Stage::HitGetContext | Stage::HitReadArgument | Stage::BypassSetContext
            | Stage::BypassCloseThread => Phase::EvaluatingHit,
            Stage::StepOpenThread | Stage::StepGetContext | Stage::StepSetContext
            | Stage::StepRearm | Stage::StepRearmFlush | Stage::StepCloseThread => {
                Phase::SteppingOver
            },
            Stage::FoundRearm | Stage::FoundRearmFlush | Stage::FoundCloseThread
            | Stage::FoundTerminate | Stage::FoundCloseProcess => Phase::Found,
            Stage::ExitCloseProcess | Stage::AbortCloseThread | Stage::AbortDisarm
            | Stage::AbortTerminate | Stage::AbortCloseProcess => Phase::Aborted,
            Stage::Finished => match self.core.fault {
                None => Phase::Found,
                Some(_) => Phase::Aborted,
            },
        }
    }

    /// The breakpoint of the session, once the byte under it has been read.
    pub fn breakpoint(&self) -> (breakpoint: Option<SoftwareBreakpoint>)
        ensures
            breakpoint == self@.core.breakpoint,
    {
        self.core.breakpoint
    }

    /// Whether the thread is stepping over the disarmed breakpoint.
    pub fn is_stepping(&self, thread_id: u32) -> (stepping: bool)
        ensures
            stepping == self@.stepping.contains_key(thread_id),
    {
        self.stepping_threads.contains_key(&thread_id)
    }

    /// What the session has to show once it is over: the key, with the HMAC algorithm left
    /// open, or the error that ended it. `None` while the session is not over. The key of a
    /// consistent session is the string that passed for one, character by character: it has
    /// the length of a key and is printable.
    pub fn outcome(&self) -> (outcome: Option<Result<DBDecryptInfo, Error>>)
        ensures
            match spec_outcome(self@) {
                None => outcome is None,
                Some(Ok(key)) => outcome matches Some(Ok(info)) && info.key@ == key
                    && info.cipher_hmac_algorithm is None,
                Some(Err(fault)) => outcome == Some(
                    Err::<DBDecryptInfo, Error>(spec_error(fault)),
                ),
            },
            consistent(self@) ==> (outcome matches Some(Ok(info)) ==> info.key@.len()
                == KEY_LENGTH && info.key@ == spec_ascii_string(self@.key) && spec_is_key(
                self@.key,
            )),
    {
        match self.core.stage {
            Stage::Finished => match self.core.fault {
                Some(Fault::NotInstalled) => Some(Err(Error::QQInstallationNotFound)),
                Some(Fault::Windows { op, code, address }) => Some(
                    Err(Error::WindowsOp { op, code, address }),
                ),
                Some(Fault::Debug { reason, address }) => Some(
                    Err(Error::DebugForKey { reason, address }),
                ),
                None => Some(
                    Ok(
                        DBDecryptInfo {
                            key: parse_string_data(self.key.as_slice()),
                            cipher_hmac_algorithm: None,
                        },
                    ),
                ),
            },
            _ => None,
        }
    }

    /// Takes in a debug event.
    fn handle_event(&mut self, event: DebugEvent)
        ensures
            final(self)@ == crate::ntqq::windows::protocol::on_event(old(self)@, event),
    {
        let core = Core {
            process_id: event.process_id,
            thread_id: event.thread_id,
            status: ContinueStatus::Continue,
            exiting: false,
            stage: Stage::Continue,
            ..self.core
        };
        match event.kind {
            DebugEventKind::Exception { code, address } => {
                if code == EXCEPTION_BREAKPOINT {
                    if breakpoint_active(core) && address == breakpoint_address(core) {
                        self.core = at_stage(core, Stage::HitRestore);
                    } else {
                        self.core = core;
                    }
                } else if code == EXCEPTION_SINGLE_STEP {
                    match self.stepping_threads.remove(&event.thread_id) {
                        Some(state) => {
                            self.core = Core {
                                stage: Stage::StepOpenThread,
                                patch_address: state.breakpoint_address,
                                ..core
                            };
                        },
                        None => {
                            assert(self.stepping_threads@ =~= old(self).stepping_threads@);
                            self.core = Core { status: ContinueStatus::NotHandled, ..core };
                        },
                    }
                } else {
                    self.core = Core { status: ContinueStatus::NotHandled, ..core };
                }
            },
            DebugEventKind::LoadDll => {
                if core.wrapper_base == 0 && core.breakpoint.is_none() {
                    self.core = at_stage(core, Stage::FindModule);
                } else {
                    self.core = core;
                }
            },
            DebugEventKind::ExitProcess { exit_code } => {
                self.core = Core { exiting: true, ..core };
            },
            _ => {
                self.core = core;
            },
        }
    }

    /// Takes in the string read at the argument of the hooked routine: a string that passes
    /// for a key is kept and ends the search, any other lets the thread step on.
    fn handle_argument(&mut self, argument: Vec<u8>)
        ensures
            final(self)@ == crate::ntqq::windows::protocol::on_argument(old(self)@, argument@),
    {
        if is_key(argument.as_slice()) {
            self.core = at_stage(self.core, Stage::FoundRearm);
            self.key = argument;
        } else {
            self.core = at_stage(self.core, Stage::BypassSetContext);
        }
    }

    /// Moves the session on: `reply` tells how the request that the session waited on
    /// went, and the result is the request that it waits on now.
    ///
    /// A reply that does not answer the request fails the session, which then winds down
    /// like after any other failure. A session that is over stays as it is. A session that
    /// is consistent stays so.
    pub fn step(&mut self, reply: Reply) -> (request: Request)
        ensures
            final(self)@ == next(old(self)@, reply),
            request == pending(final(self)@.core),
            consistent(old(self)@) ==> consistent(final(self)@),
    {
        proof {
            if consistent(self@) {
                lemma_next_consistent(self@, reply);
            }
        }
        self.take_in(reply);
        request_of(self.core)
    }

    /// Takes in the answer to the request that the session waited on.
    #[verifier::rlimit(40)]
    fn take_in(&mut self, reply: Reply)
        ensures
            final(self)@ == next(old(self)@, reply),
    {
        let core = self.core;
        match core.stage {
            Stage::CheckExecutable => {
                self.core = match &reply {
                    Reply::Executable { is_file } => {
                        if *is_file {
                            at_stage(core, Stage::CreateProcess)
                        } else {
                            fail(core, Fault::NotInstalled)
                        }
                    },
                    _ => fail_unexpected(core),
                };
            },
            Stage::CreateProcess => {
                self.core = match &reply {
                    Reply::Process { process_id, handle_valid, thread_valid } => {
                        after_create_process(core, *handle_valid, *thread_valid)
                    },
                    Reply::Failed { code } => fail(
                        core,
                        windows_fault(core, WindowsOperation::CreateProcess, *code),
                    ),
                    _ => fail_unexpected(core),
                };
            },
            Stage::LaunchCloseThread => {
                self.core = Core { stage: Stage::Wait, thread: HandleState::Released, ..core };
            },
            Stage::Wait => {
                match &reply {
                    Reply::Event(event) => {
                        self.handle_event(*event);
                    },
                    Reply::Timeout => {},
                    Reply::Failed { code } => {},
                    _ => {
                        self.core = fail_unexpected(core);
                    },
                }
            },
            Stage::FindModule => {
                self.core = match &reply {
                    Reply::Modules(modules) => {
                        match get_module_base(modules, WRAPPER_MODULE.as_slice()) {
                            Some(base) => Core {
                                stage: Stage::ArmRead,
                                wrapper_base: base,
                                patch_address: base.wrapping_add(core.target_rva),
                                ..core
                            },
                            None => at_stage(core, Stage::Continue),
                        }
                    },
                    Reply::Failed { code } => at_stage(core, Stage::Continue),
                    _ => fail_unexpected(core),
                };
            },
            Stage::ArmRead => {
                self.core = match &reply {
                    Reply::Memory { bytes } => {
                        if bytes.len() == 1 {
                            Core {
                                stage: Stage::ArmWrite,
                                breakpoint: Some(
                                    SoftwareBreakpoint {
                                        address: core.patch_address,
                                        original_byte: bytes[0],
                                        is_active: false,
                                    },
                                ),
                                ..core
                            }
                        } else {
                            fail(core, debug_fault(core, DebugFailure::ReadOriginalByte))
                        }
                    },
                    Reply::Failed { code } => fail(
                        core,
                        windows_fault(core, WindowsOperation::ReadOriginalByte, *code),
                    ),
                    _ => fail_unexpected(core),
                };
            },
            Stage::ArmWrite => {
                self.core = after_write(
                    core,
                    &reply,
                    true,
                    Stage::ArmFlush,
                    WindowsOperation::WriteBreakpoint,
                    DebugFailure::WriteBreakpoint,
                );
            },
            Stage::ArmFlush => {
                self.core = after_call(
                    core,
                    &reply,
                    Stage::Continue,
                    WindowsOperation::FlushInstructionCache,
                );
            },
            Stage::HitRestore => {
                self.core = after_write(
                    core,
                    &reply,
                    false,
                    Stage::HitRestoreFlush,
                    WindowsOperation::WriteRemoteMemory,
                    DebugFailure::WriteRemoteMemory,
                );
            },
            Stage::HitRestoreFlush => {
                self.core = after_call(
                    core,
                    &reply,
                    Stage::HitOpenThread,
                    WindowsOperation::FlushInstructionCache,
                );
            },
            Stage::HitOpenThread => {
                self.core = after_open_thread(core, &reply, Stage::HitGetContext);
            },
            Stage::HitGetContext => {
                self.core = after_get_context(core, &reply, Stage::HitReadArgument);
            },
            Stage::HitReadArgument => {
                match &reply {
                    Reply::Memory { bytes } => {
                        let argument = read_remote_string(bytes.as_slice(), ARGUMENT_LIMIT);
                        self.handle_argument(argument);
                    },
                    Reply::Failed { code } => {
                        self.handle_argument(Vec::new());
                    },
                    _ => {
                        self.core = fail_unexpected(core);
                    },
                }
            },
            Stage::BypassSetContext => {
                match &reply {
                    Reply::Done => {
                        self.stepping_threads.insert(
                            core.thread_id,
                            ThreadStepState { breakpoint_address: breakpoint_address(core) },
                        );
                        self.core = at_stage(core, Stage::BypassCloseThread);
                    },
                    Reply::Failed { code } => {
                        self.core = fail(
                            core,
                            windows_fault(core, WindowsOperation::SetThreadContext, *code),
                        );
                    },
                    _ => {
                        self.core = fail_unexpected(core);
                    },
                }
            },
            Stage::BypassCloseThread | Stage::StepCloseThread => {
                self.core = Core { stage: Stage::Continue, thread: HandleState::Released, ..core };
            },
            Stage::FoundRearm => {
                self.core = match &reply {
                    Reply::Written { count } => {
                        if *count == 1 {
                            at_stage(set_active(core, true), Stage::FoundRearmFlush)
                        } else {
                            at_stage(core, Stage::FoundCloseThread)
                        }
                    },
                    _ => at_stage(core, Stage::FoundCloseThread),
                };
            },
            Stage::FoundRearmFlush => {
                self.core = at_stage(core, Stage::FoundCloseThread);
            },
            Stage::FoundCloseThread => {
                self.core = Core {
                    stage: Stage::FoundTerminate,
                    thread: HandleState::Released,
                    ..core
                };
            },
            Stage::FoundTerminate => {
                self.core = after_call(
                    core,
                    &reply,
                    Stage::FoundCloseProcess,
                    WindowsOperation::TerminateProcess,
                );
            },
            Stage::FoundCloseProcess | Stage::ExitCloseProcess | Stage::AbortCloseProcess => {
                self.core = Core {
                    stage: Stage::Finished,
                    process: HandleState::Released,
                    ..core
                };
            },
            Stage::StepOpenThread => {
                self.core = after_open_thread(core, &reply, Stage::StepGetContext);
            },
            Stage::StepGetContext => {
                self.core = after_get_context(core, &reply, Stage::StepSetContext);
            },
            Stage::StepSetContext => {
                self.core = after_call(
                    core,
                    &reply,
                    Stage::StepRearm,
                    WindowsOperation::SetThreadContext,
                );
            },
            Stage::StepRearm => {
                self.core = after_write(
                    core,
                    &reply,
                    true,
                    Stage::StepRearmFlush,
                    WindowsOperation::WriteRemoteMemory,
                    DebugFailure::WriteRemoteMemory,
                );
            },
            Stage::StepRearmFlush => {
                self.core = after_call(
                    core,
                    &reply,
                    Stage::StepCloseThread,
                    WindowsOperation::FlushInstructionCache,
                );
            },
            Stage::Continue => {
                self.core = match &reply {
                    Reply::Done => {
                        if core.exiting {
                            Core {
                                stage: Stage::ExitCloseProcess,
                                fault: Some(debug_fault(core, DebugFailure::KeyNotFound)),
                                ..core
                            }
                        } else {
                            at_stage(core, Stage::Wait)
                        }
                    },
                    Reply::Failed { code } => fail(
                        core,
                        windows_fault(core, WindowsOperation::ContinueDebugEvent, *code),
                    ),
                    _ => fail_unexpected(core),
                };
            },
            Stage::AbortCloseThread => {
                self.core = begin_wind_down(Core { thread: HandleState::Released, ..core });
            },
            Stage::AbortDisarm => {
                self.core = match &reply {
                    Reply::Written { count } => {
                        if *count == 1 {
                            at_stage(set_active(core, false), Stage::AbortTerminate)
                        } else {
                            at_stage(core, Stage::AbortTerminate)
                        }
                    },
                    _ => at_stage(core, Stage::AbortTerminate),
                };
            },
            Stage::AbortTerminate => {
                self.core = at_stage(core, Stage::AbortCloseProcess);
            },
            Stage::Finished => {},
        }
    }
}

} // verus!
