//! Single steps of a session on the paths that go well, in closed form.

use crate::ntqq::windows::debug_process::{
    spec_is_key, spec_module_base, spec_remote_string, SoftwareBreakpoint, ThreadContext,
    ThreadStepState, ARGUMENT_LIMIT, EXCEPTION_BREAKPOINT, EXCEPTION_SINGLE_STEP,
};
use crate::ntqq::windows::laws::advance;
use crate::ntqq::windows::protocol::{
    breakpoint_address, with_active, ContinueStatus, Core, DebugEvent, DebugEventKind,
    HandleState, Reply, SessionView, Stage, WRAPPER_MODULE,
};
use vstd::prelude::*;

verus! {

/// The state with another stage.
pub open spec fn at(view: SessionView, stage: Stage) -> SessionView {
    SessionView { core: Core { stage, ..view.core }, ..view }
}

/// The stage that follows on a call that went well and has nothing to tell.
pub open spec fn after_done(stage: Stage) -> Stage {
    match stage {
        Stage::ArmFlush => Stage::Continue,
        Stage::HitRestoreFlush => Stage::HitOpenThread,
        Stage::StepSetContext => Stage::StepRearm,
        Stage::StepRearmFlush => Stage::StepCloseThread,
        Stage::FoundRearmFlush => Stage::FoundCloseThread,
        Stage::FoundTerminate => Stage::FoundCloseProcess,
        Stage::AbortTerminate => Stage::AbortCloseProcess,
        _ => stage,
    }
}

/// With the executable in place the process is created.
pub proof fn lemma_step_executable(view: SessionView)
    requires
        view.core.stage is CheckExecutable,
    ensures
        advance(view, Reply::Executable { is_file: true }) == at(view, Stage::CreateProcess),
{
    reveal(advance);
}

/// The process created with valid handles: both are held from then on, and the handle of
/// the first thread is closed before anything else.
pub proof fn lemma_step_process(view: SessionView, process_id: u32)
    requires
        view.core.stage is CreateProcess,
    ensures
        advance(view, Reply::Process { process_id, handle_valid: true, thread_valid: true }) == (
        SessionView {
            core: Core {
                stage: Stage::LaunchCloseThread,
                process: HandleState::Held,
                thread: HandleState::Held,
                ..view.core
            },
            ..view
        }),
{
    reveal(advance);
}

/// A module loaded while there is no breakpoint starts the search for the native module.
pub proof fn lemma_step_module_loaded(view: SessionView, event: DebugEvent)
    requires
        view.core.stage is Wait,
        view.core.wrapper_base == 0,
        view.core.breakpoint is None,
        event.kind is LoadDll,
    ensures
        advance(view, Reply::Event(event)) == (SessionView {
            core: noted(view, event, Stage::FindModule),
            ..view
        }),
{
    reveal(advance);
}

/// With the native module among the modules, the address of the breakpoint is the address
/// at which the module is loaded plus the offset of the hooked routine.
pub proof fn lemma_step_modules(view: SessionView, reply: Reply, base: u64)
    requires
        view.core.stage is FindModule,
        reply matches Reply::Modules(modules) && spec_module_base(modules@, WRAPPER_MODULE@)
            == Some(base),
    ensures
        advance(view, reply) == (SessionView {
            core: Core {
                stage: Stage::ArmRead,
                wrapper_base: base,
                patch_address: base.wrapping_add(view.core.target_rva),
                ..view.core
            },
            ..view
        }),
{
    reveal(advance);
}

/// A call that went well and has nothing to tell moves the session to the next stage.
pub proof fn lemma_step_done(view: SessionView)
    requires
        after_done(view.core.stage) != view.core.stage,
    ensures
        advance(view, Reply::Done) == at(view, after_done(view.core.stage)),
{
    reveal(advance);
}

/// The stage that follows on a byte written to the breakpoint.
pub open spec fn after_written(stage: Stage) -> Stage {
    match stage {
        Stage::ArmWrite => Stage::ArmFlush,
        Stage::HitRestore => Stage::HitRestoreFlush,
        Stage::StepRearm => Stage::StepRearmFlush,
        Stage::FoundRearm => Stage::FoundRearmFlush,
        Stage::AbortDisarm => Stage::AbortTerminate,
        _ => stage,
    }
}

/// Whether the byte written at a stage is the trap instruction.
pub open spec fn writes_trap(stage: Stage) -> bool {
    stage is ArmWrite || stage is StepRearm || stage is FoundRearm
}

/// One byte written moves the session to the next stage and marks the breakpoint: as
/// active where the byte was the trap instruction, as not active where it was the
/// original byte.
pub proof fn lemma_step_written(view: SessionView)
    requires
        after_written(view.core.stage) != view.core.stage,
    ensures
        advance(view, Reply::Written { count: 1 }) == (SessionView {
            core: Core {
                stage: after_written(view.core.stage),
                ..with_active(view.core, writes_trap(view.core.stage))
            },
            ..view
        }),
{
    reveal(advance);
}

/// A thread opened with a valid handle is held from then on.
pub proof fn lemma_step_opened(view: SessionView)
    requires
        view.core.stage is HitOpenThread || view.core.stage is StepOpenThread,
    ensures
        advance(view, Reply::Thread { handle_valid: true }) == (SessionView {
            core: Core {
                stage: if view.core.stage is HitOpenThread {
                    Stage::HitGetContext
                } else {
                    Stage::StepGetContext
                },
                thread: HandleState::Held,
                ..view.core
            },
            ..view
        }),
{
    reveal(advance);
}

/// The registers read are kept.
pub proof fn lemma_step_context(view: SessionView, context: ThreadContext)
    requires
        view.core.stage is HitGetContext || view.core.stage is StepGetContext,
    ensures
        advance(view, Reply::Context(context)) == (SessionView {
            core: Core {
                stage: if view.core.stage is HitGetContext {
                    Stage::HitReadArgument
                } else {
                    Stage::StepSetContext
                },
                context,
                ..view.core
            },
            ..view
        }),
{
    reveal(advance);
}

/// The stage that follows on the handle of a thread being closed.
pub open spec fn after_closed(stage: Stage) -> Stage {
    match stage {
        Stage::LaunchCloseThread => Stage::Wait,
        Stage::FoundCloseThread => Stage::FoundTerminate,
        _ => Stage::Continue,
    }
}

/// A thread closed is no longer held, whatever closing it brought back.
pub proof fn lemma_step_closed(view: SessionView, reply: Reply)
    requires
        view.core.stage is LaunchCloseThread || view.core.stage is BypassCloseThread
            || view.core.stage is StepCloseThread || view.core.stage is FoundCloseThread,
    ensures
        advance(view, reply) == (SessionView {
            core: Core {
                stage: after_closed(view.core.stage),
                thread: HandleState::Released,
                ..view.core
            },
            ..view
        }),
{
    reveal(advance);
}

/// The handle of the process closed ends the session, whatever closing it brought back.
pub proof fn lemma_step_process_closed(view: SessionView, reply: Reply)
    requires
        view.core.stage is FoundCloseProcess || view.core.stage is ExitCloseProcess
            || view.core.stage is AbortCloseProcess,
    ensures
        advance(view, reply) == (SessionView {
            core: Core { stage: Stage::Finished, process: HandleState::Released, ..view.core },
            ..view
        }),
{
    reveal(advance);
}

/// After an event that is not the exit of the process, the program runs on and the session
/// waits for the next event.
pub proof fn lemma_step_continued(view: SessionView)
    requires
        view.core.stage is Continue,
        !view.core.exiting,
    ensures
        advance(view, Reply::Done) == at(view, Stage::Wait),
{
    reveal(advance);
}

/// The state in which an event is taken in: the event is noted, and it counts as dealt
/// with unless something else turns up.
pub open spec fn noted(view: SessionView, event: DebugEvent, stage: Stage) -> Core {
    Core {
        process_id: event.process_id,
        thread_id: event.thread_id,
        status: ContinueStatus::Continue,
        exiting: false,
        stage,
        ..view.core
    }
}

/// A breakpoint trap at the armed breakpoint starts the look at the call.
pub proof fn lemma_step_trapped(view: SessionView, event: DebugEvent)
    requires
        view.core.stage is Wait,
        view.core.breakpoint matches Some(breakpoint) && breakpoint.is_active && event.kind == (
        DebugEventKind::Exception { code: EXCEPTION_BREAKPOINT, address: breakpoint.address }),
    ensures
        advance(view, Reply::Event(event)) == (SessionView {
            core: noted(view, event, Stage::HitRestore),
            ..view
        }),
{
    reveal(advance);
}

/// A single-step trap of a thread that is stepping starts putting the breakpoint back, and
/// the thread is stepping no longer.
pub proof fn lemma_step_single_stepped(view: SessionView, event: DebugEvent)
    requires
        view.core.stage is Wait,
        view.stepping.contains_key(event.thread_id),
        event.kind matches DebugEventKind::Exception { code, .. } && code
            == EXCEPTION_SINGLE_STEP,
    ensures
        advance(view, Reply::Event(event)) == (SessionView {
            core: Core {
                patch_address: view.stepping[event.thread_id].breakpoint_address,
                ..noted(view, event, Stage::StepOpenThread)
            },
            stepping: view.stepping.remove(event.thread_id),
            ..view
        }),
{
    reveal(advance);
}

/// The string that a reply to the read at the argument stands for.
pub open spec fn argument_string(reply: Reply) -> Seq<u8> {
    match reply {
        Reply::Memory { bytes } => spec_remote_string(bytes@, ARGUMENT_LIMIT as int),
        _ => Seq::empty(),
    }
}

/// Whether the reply answers the read at the argument.
pub open spec fn answers_read(reply: Reply) -> bool {
    reply is Memory || reply is Failed
}

/// The verdict on the argument: a string that passes for a key is kept and ends the
/// search, and after any other string the thread is made to step.
pub proof fn lemma_step_argument(view: SessionView, reply: Reply)
    requires
        view.core.stage is HitReadArgument,
        answers_read(reply),
    ensures
        advance(view, reply) == if spec_is_key(argument_string(reply)) {
            SessionView { key: argument_string(reply), ..at(view, Stage::FoundRearm) }
        } else {
            at(view, Stage::BypassSetContext)
        },
{
    reveal(advance);
}

/// With the trap flag set in its registers, the thread is stepping over the breakpoint.
pub proof fn lemma_step_released(view: SessionView)
    requires
        view.core.stage is BypassSetContext,
    ensures
        advance(view, Reply::Done) == (SessionView {
            stepping: view.stepping.insert(
                view.core.thread_id,
                ThreadStepState { breakpoint_address: breakpoint_address(view.core) },
            ),
            ..at(view, Stage::BypassCloseThread)
        }),
{
    reveal(advance);
}

/// The byte read at the address of the breakpoint is kept as its original byte.
pub proof fn lemma_step_original_read(view: SessionView, reply: Reply)
    requires
        view.core.stage is ArmRead,
        reply matches Reply::Memory { bytes } && bytes@.len() == 1,
    ensures
        advance(view, reply) == (SessionView {
            core: Core {
                stage: Stage::ArmWrite,
                breakpoint: Some(
                    SoftwareBreakpoint {
                        address: view.core.patch_address,
                        original_byte: reply->bytes@[0],
                        is_active: false,
                    },
                ),
                ..view.core
            },
            ..view
        }),
{
    reveal(advance);
}

} // verus!
