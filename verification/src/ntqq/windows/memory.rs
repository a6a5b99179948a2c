//! The breakpoint and the program.
//!
//! The program is not seen by a session: its memory and the registers of its threads are
//! read and written by whoever performs the requests. Here the memory is a map from
//! addresses to bytes that changes by the writes of the session alone, the trap flags are
//! the set of threads that have theirs set, and the laws say what the session does to
//! both.

use crate::ntqq::windows::debug_process::{
    SoftwareBreakpoint, EXCEPTION_BREAKPOINT, EXCEPTION_SINGLE_STEP, TRAP_FLAG, TRAP_OPCODE,
};
use crate::ntqq::windows::laws::{
    advance, consistent, lemma_next_consistent, lemma_run_consistent, lemma_run_push, run,
};
use crate::ntqq::windows::protocol::{
    next, pending, DebugEvent, DebugEventKind, Reply, Request, SessionView,
};
use crate::ntqq::windows::steps::{
    lemma_step_continued, lemma_step_done, lemma_step_original_read, lemma_step_trapped,
    lemma_step_written,
};
use vstd::prelude::*;

verus! {

/// The memory after a request was performed and answered: a write of which one byte is
/// reported as written has changed that byte, and nothing else changes the memory.
pub open spec fn memory_after(memory: Map<u64, u8>, request: Request, reply: Reply) -> Map<u64, u8> {
    match (request, reply) {
        (Request::WriteMemory { address, byte }, Reply::Written { count }) => if count == 1 {
            memory.insert(address, byte)
        } else {
            memory
        },
        _ => memory,
    }
}

/// Whether `reply` is true to the memory: a single byte that it reports as read is the byte
/// that the memory holds at the address asked for.
pub open spec fn reads_truly(memory: Map<u64, u8>, request: Request, reply: Reply) -> bool {
    match (request, reply) {
        (Request::ReadMemory { address, len }, Reply::Memory { bytes }) => len == 1
            && bytes@.len() == 1 ==> memory.contains_key(address) && bytes@[0] == memory[address],
        _ => true,
    }
}

/// Whether the byte under the breakpoint is what the breakpoint says: the trap instruction
/// while it is marked active, the original byte while it is not.
pub open spec fn patched(view: SessionView, memory: Map<u64, u8>) -> bool {
    match view.core.breakpoint {
        Some(breakpoint) => memory.contains_key(breakpoint.address) && memory[breakpoint.address]
            == if breakpoint.is_active {
            TRAP_OPCODE
        } else {
            breakpoint.original_byte
        },
        None => true,
    }
}

/// The breakpoint is marked active if and only if the trap instruction is in place, at
/// every step of a session that is told the truth about the memory.
pub proof fn lemma_next_patched(view: SessionView, memory: Map<u64, u8>, reply: Reply)
    requires
        consistent(view),
        patched(view, memory),
        reads_truly(memory, pending(view.core), reply),
    ensures
        patched(next(view, reply), memory_after(memory, pending(view.core), reply)),
{
    lemma_next_consistent(view, reply);
}

/// The memory after a session in state `view` was told `replies`, starting from `memory`.
pub open spec fn run_memory(view: SessionView, memory: Map<u64, u8>, replies: Seq<Reply>) -> Map<
    u64,
    u8,
>
    decreases replies.len(),
{
    if replies.len() == 0 {
        memory
    } else {
        memory_after(
            run_memory(view, memory, replies.drop_last()),
            pending(run(view, replies.drop_last()).core),
            replies.last(),
        )
    }
}

/// Whether each of `replies` was true to the memory as it was then.
pub open spec fn told_truly(view: SessionView, memory: Map<u64, u8>, replies: Seq<Reply>) -> bool
    decreases replies.len(),
{
    replies.len() > 0 ==> told_truly(view, memory, replies.drop_last()) && reads_truly(
        run_memory(view, memory, replies.drop_last()),
        pending(run(view, replies.drop_last()).core),
        replies.last(),
    )
}

/// One more reply is one more change of the memory.
pub proof fn lemma_run_memory_push(
    view: SessionView,
    memory: Map<u64, u8>,
    replies: Seq<Reply>,
    reply: Reply,
)
    ensures
        run_memory(view, memory, replies.push(reply)) == memory_after(
            run_memory(view, memory, replies),
            pending(run(view, replies).core),
            reply,
        ),
{
    assert(replies.push(reply).drop_last() =~= replies);
}

/// Through any run of a session that is told the truth about the memory, the breakpoint is
/// marked active if and only if the trap instruction is in place.
pub proof fn lemma_run_patched(view: SessionView, memory: Map<u64, u8>, replies: Seq<Reply>)
    requires
        consistent(view),
        patched(view, memory),
        told_truly(view, memory, replies),
    ensures
        patched(run(view, replies), run_memory(view, memory, replies)),
    decreases replies.len(),
{
    if replies.len() > 0 {
        reveal(advance);
        lemma_run_patched(view, memory, replies.drop_last());
        lemma_run_consistent(view, replies.drop_last());
        lemma_next_patched(
            run(view, replies.drop_last()),
            run_memory(view, memory, replies.drop_last()),
            replies.last(),
        );
    }
}

/// Whether the trap flag is set in a flags register.
pub open spec fn trap_flag_set(eflags: u32) -> bool {
    eflags & TRAP_FLAG != 0
}

/// The threads that have the trap flag set, after a request was performed and answered.
/// Registers written with the flag set, or cleared, set or clear the flag of the thread
/// being handled, and the processor clears the flag of a thread when it raises the
/// single-step trap for it.
pub open spec fn flagged_after(flagged: Set<u32>, view: SessionView, reply: Reply) -> Set<u32> {
    match (pending(view.core), reply) {
        (Request::SetThreadContext { rip, eflags }, Reply::Done) => if trap_flag_set(eflags) {
            flagged.insert(view.core.thread_id)
        } else {
            flagged.remove(view.core.thread_id)
        },
        (Request::WaitForDebugEvent { .. }, Reply::Event(event)) => match event.kind {
            DebugEventKind::Exception { code, address } => if code == EXCEPTION_SINGLE_STEP {
                flagged.remove(event.thread_id)
            } else {
                flagged
            },
            _ => flagged,
        },
        _ => flagged,
    }
}

/// Whether every thread that the session has as stepping has the trap flag set.
pub open spec fn steps_flagged(view: SessionView, flagged: Set<u32>) -> bool {
    forall|thread: u32| #[trigger] view.stepping.contains_key(thread) ==> flagged.contains(thread)
}

/// Every thread that the session has as stepping over the breakpoint has the trap flag
/// set, at every step.
pub proof fn lemma_next_flagged(view: SessionView, flagged: Set<u32>, reply: Reply)
    requires
        consistent(view),
        steps_flagged(view, flagged),
    ensures
        steps_flagged(next(view, reply), flagged_after(flagged, view, reply)),
{
    let eflags = view.core.context.eflags;
    assert((eflags | 0x100u32) & 0x100u32 != 0) by (bit_vector);
    assert((eflags & !0x100u32) & 0x100u32 == 0) by (bit_vector);
    lemma_next_consistent(view, reply);
}

/// The replies under which a breakpoint is armed: the original byte is read, the trap
/// instruction is written, and the instruction cache is flushed.
pub open spec fn arm_script(read: Reply) -> Seq<Reply> {
    Seq::<Reply>::empty().push(read).push(Reply::Written { count: 1 }).push(Reply::Done)
}

/// The replies under which an armed breakpoint is hit and disarmed: the program runs on,
/// `thread` traps at `address`, and the original byte is written back.
pub open spec fn disarm_script(process_id: u32, thread_id: u32, address: u64) -> Seq<Reply> {
    Seq::<Reply>::empty().push(Reply::Done).push(
        Reply::Event(
            DebugEvent {
                process_id,
                thread_id,
                kind: DebugEventKind::Exception { code: EXCEPTION_BREAKPOINT, address },
            },
        ),
    ).push(Reply::Written { count: 1 })
}

/// The steps of arming, one by one.
proof fn lemma_arm_steps(view: SessionView, memory: Map<u64, u8>, read: Reply)
    requires
        view.core.stage is ArmRead,
        !view.core.exiting,
        read matches Reply::Memory { bytes } && bytes@ =~= seq![memory[view.core.patch_address]],
    ensures
        ({
            let address = view.core.patch_address;
            let armed = run(view, arm_script(read));
            &&& armed.core.stage is Continue
            &&& !armed.core.exiting
            &&& armed.core.breakpoint == Some(
                SoftwareBreakpoint { address, original_byte: memory[address], is_active: true },
            )
            &&& run_memory(view, memory, arm_script(read)) == memory.insert(address, TRAP_OPCODE)
        }),
{
    let address = view.core.patch_address;
    let e = Seq::<Reply>::empty();
    let written = Reply::Written { count: 1 };
    lemma_run_push(view, e, read);
    lemma_run_memory_push(view, memory, e, read);
    lemma_step_original_read(view, read);
    let a1 = e.push(read);
    lemma_run_push(view, a1, written);
    lemma_run_memory_push(view, memory, a1, written);
    lemma_step_written(run(view, a1));
    let a2 = a1.push(written);
    lemma_run_push(view, a2, Reply::Done);
    lemma_run_memory_push(view, memory, a2, Reply::Done);
    lemma_step_done(run(view, a2));
    assert(run_memory(view, memory, a2.push(Reply::Done)) =~= memory.insert(address, TRAP_OPCODE));
}

/// Arming. With the original byte read, the trap instruction written and the cache
/// flushed, the session keeps the byte that stood at the address, marks the breakpoint as
/// active and lets the program run on; the memory holds the trap instruction at the address
/// and is unchanged elsewhere.
pub proof fn lemma_arm(view: SessionView, memory: Map<u64, u8>, read: Reply)
    requires
        consistent(view),
        view.core.stage is ArmRead,
        read matches Reply::Memory { bytes } && bytes@ =~= seq![memory[view.core.patch_address]],
    ensures
        ({
            let address = view.core.patch_address;
            let armed = run(view, arm_script(read));
            &&& consistent(armed)
            &&& armed.core.stage is Continue
            &&& !armed.core.exiting
            &&& armed.core.breakpoint == Some(
                SoftwareBreakpoint { address, original_byte: memory[address], is_active: true },
            )
            &&& run_memory(view, memory, arm_script(read)) == memory.insert(address, TRAP_OPCODE)
        }),
{
    lemma_arm_steps(view, memory, read);
    lemma_run_consistent(view, arm_script(read));
}

/// Disarming. When the program runs into the armed breakpoint, the session writes the
/// original byte back and marks the breakpoint as not active.
pub proof fn lemma_disarm(
    view: SessionView,
    memory: Map<u64, u8>,
    process_id: u32,
    thread_id: u32,
)
    requires
        view.core.stage is Continue,
        !view.core.exiting,
        view.core.breakpoint matches Some(breakpoint) && breakpoint.is_active,
    ensures
        ({
            let breakpoint = view.core.breakpoint->0;
            let script = disarm_script(process_id, thread_id, breakpoint.address);
            &&& run(view, script).core.breakpoint == Some(
                SoftwareBreakpoint { is_active: false, ..breakpoint },
            )
            &&& run_memory(view, memory, script) == memory.insert(
                breakpoint.address,
                breakpoint.original_byte,
            )
        }),
{
    let breakpoint = view.core.breakpoint->0;
    let e = Seq::<Reply>::empty();
    let written = Reply::Written { count: 1 };
    let event = DebugEvent {
        process_id,
        thread_id,
        kind: DebugEventKind::Exception { code: EXCEPTION_BREAKPOINT, address: breakpoint.address },
    };
    lemma_run_push(view, e, Reply::Done);
    lemma_run_memory_push(view, memory, e, Reply::Done);
    lemma_step_continued(view);
    let d1 = e.push(Reply::Done);
    lemma_run_push(view, d1, Reply::Event(event));
    lemma_run_memory_push(view, memory, d1, Reply::Event(event));
    lemma_step_trapped(run(view, d1), event);
    let d2 = d1.push(Reply::Event(event));
    lemma_run_push(view, d2, written);
    lemma_run_memory_push(view, memory, d2, written);
    lemma_step_written(run(view, d2));
    assert(run_memory(view, memory, d2.push(written)) =~= memory.insert(
        breakpoint.address,
        breakpoint.original_byte,
    ));
}

/// Breakpoint round trip. Arming a breakpoint and disarming it again leaves the memory of
/// the program as it was, whatever byte stood at the address: arming keeps that byte and
/// puts the trap instruction in its place, and disarming writes the byte back.
pub proof fn lemma_breakpoint_round_trip(
    view: SessionView,
    memory: Map<u64, u8>,
    read: Reply,
    process_id: u32,
    thread_id: u32,
)
    requires
        consistent(view),
        view.core.stage is ArmRead,
        memory.contains_key(view.core.patch_address),
        read matches Reply::Memory { bytes } && bytes@ =~= seq![memory[view.core.patch_address]],
    ensures
        ({
            let address = view.core.patch_address;
            let armed = run(view, arm_script(read));
            let armed_memory = run_memory(view, memory, arm_script(read));
            let disarm = disarm_script(process_id, thread_id, address);
            &&& armed.core.breakpoint == Some(
                SoftwareBreakpoint { address, original_byte: memory[address], is_active: true },
            )
            &&& armed_memory == memory.insert(address, TRAP_OPCODE)
            &&& run(armed, disarm).core.breakpoint == Some(
                SoftwareBreakpoint { address, original_byte: memory[address], is_active: false },
            )
            &&& run_memory(armed, armed_memory, disarm) == memory
        }),
{
    let address = view.core.patch_address;
    lemma_arm(view, memory, read);
    let armed = run(view, arm_script(read));
    let armed_memory = run_memory(view, memory, arm_script(read));
    lemma_disarm(armed, armed_memory, process_id, thread_id);
    assert(memory.insert(address, TRAP_OPCODE).insert(address, memory[address]) =~= memory);
}

} // verus!
