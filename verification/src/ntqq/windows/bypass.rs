//! Calls of the hooked routine that do not carry the key.
//!
//! The routine is called for more than one database, so the breakpoint is hit by calls
//! whose argument is no key. Each of them is stepped over: the breakpoint is taken out, the
//! thread runs one instruction with the trap flag set, and the breakpoint is put back. The
//! laws here follow a session through any number of such calls up to the call that
//! carries the key.

use crate::ntqq::windows::debug_process::{
    spec_is_key, spec_module_base, SoftwareBreakpoint, ThreadContext, ThreadStepState,
    EXCEPTION_BREAKPOINT, EXCEPTION_SINGLE_STEP,
};
use crate::ntqq::windows::laws::{
    count, lemma_count_push, lemma_run_concat, lemma_run_push, run, terminate_requested,
};
use crate::ntqq::windows::protocol::{
    initial, spec_outcome, ContinueStatus, DebugEvent, DebugEventKind, Reply, SessionView,
    WRAPPER_MODULE,
};
use crate::ntqq::windows::steps::{
    answers_read, argument_string, lemma_step_argument, lemma_step_closed, lemma_step_context,
    lemma_step_continued, lemma_step_done, lemma_step_executable, lemma_step_module_loaded,
    lemma_step_modules, lemma_step_opened, lemma_step_original_read, lemma_step_process,
    lemma_step_process_closed, lemma_step_released, lemma_step_single_stepped,
    lemma_step_trapped, lemma_step_written,
};
use crate::util::spec_ascii_string;
use vstd::prelude::*;

verus! {

/// One call of the hooked routine, as the session gets to see it.
pub struct Call {
    /// The process that the thread belongs to.
    pub process_id: u32,
    /// The thread that makes the call.
    pub thread_id: u32,
    /// The registers of the thread when it traps at the breakpoint.
    pub context: ThreadContext,
    /// What reading at the argument brings back.
    pub argument: Reply,
    /// The registers of the thread when it traps after the single step.
    pub step_context: ThreadContext,
}

/// A call whose argument does not pass for a key.
pub open spec fn is_decoy(call: Call) -> bool {
    answers_read(call.argument) && !spec_is_key(argument_string(call.argument))
}

/// A call whose argument passes for a key.
pub open spec fn carries_key(call: Call) -> bool {
    answers_read(call.argument) && spec_is_key(argument_string(call.argument))
}

/// The moments at which a bypass is complete: the breakpoint is put back after the single
/// step.
pub open spec fn stepped_over() -> spec_fn(SessionView, Reply) -> bool {
    |view: SessionView, reply: Reply|
        view.core.stage is StepRearm && reply matches Reply::Written { count: 1 }
}

/// The moments at which a key is found: the argument read passes for one.
pub open spec fn found() -> spec_fn(SessionView, Reply) -> bool {
    |view: SessionView, reply: Reply|
        view.core.stage is HitReadArgument && answers_read(reply) && spec_is_key(
            argument_string(reply),
        )
}

/// The moments at which a thread is put down as stepping: its registers were written with
/// the trap flag set.
pub open spec fn stepping_begun() -> spec_fn(SessionView, Reply) -> bool {
    |view: SessionView, reply: Reply| view.core.stage is BypassSetContext && reply is Done
}

/// The moments at which a thread is taken off the threads that are stepping: its
/// single-step trap arrived.
pub open spec fn stepping_ended() -> spec_fn(SessionView, Reply) -> bool {
    |view: SessionView, reply: Reply|
        view.core.stage is Wait && (reply matches Reply::Event(event) && (
        event.kind matches DebugEventKind::Exception { code, .. } && code
            == EXCEPTION_SINGLE_STEP) && view.stepping.contains_key(event.thread_id))
}

/// What is counted over a run of a session.
pub struct Tally {
    /// Bypasses completed: the breakpoint put back after a single step.
    pub bypasses: nat,
    /// Keys found.
    pub keys: nat,
    /// Threads put down as stepping.
    pub begun: nat,
    /// Threads taken off the threads that are stepping.
    pub ended: nat,
    /// Requests to end the program.
    pub terminations: nat,
}

/// One where `counts`, zero where it does not.
pub open spec fn one(counts: bool) -> nat {
    if counts {
        1
    } else {
        0
    }
}

/// What one reply adds to the tally, told to a session in state `view`.
pub open spec fn tally_of(view: SessionView, reply: Reply) -> Tally {
    Tally {
        bypasses: one(stepped_over()(view, reply)),
        keys: one(found()(view, reply)),
        begun: one(stepping_begun()(view, reply)),
        ended: one(stepping_ended()(view, reply)),
        terminations: one(terminate_requested()(view, reply)),
    }
}

/// The tally of a session in state `view` that is told `replies`.
pub open spec fn tally(view: SessionView, replies: Seq<Reply>) -> Tally {
    Tally {
        bypasses: count(view, replies, stepped_over()),
        keys: count(view, replies, found()),
        begun: count(view, replies, stepping_begun()),
        ended: count(view, replies, stepping_ended()),
        terminations: count(view, replies, terminate_requested()),
    }
}

/// Two tallies added up.
pub open spec fn sum(a: Tally, b: Tally) -> Tally {
    Tally {
        bypasses: a.bypasses + b.bypasses,
        keys: a.keys + b.keys,
        begun: a.begun + b.begun,
        ended: a.ended + b.ended,
        terminations: a.terminations + b.terminations,
    }
}

/// The tally of `bypasses` calls stepped over and `keys` calls that carried the key, with
/// the program ended once for each key.
pub open spec fn tally_after(bypasses: nat, keys: nat) -> Tally {
    Tally { bypasses, keys, begun: bypasses, ended: bypasses, terminations: keys }
}

/// A session that waits for the next event with `breakpoint` armed and no step pending.
pub open spec fn armed(view: SessionView, breakpoint: SoftwareBreakpoint) -> bool {
    &&& view.core.stage is Wait
    &&& view.core.breakpoint == Some(breakpoint)
    &&& breakpoint.is_active
    &&& view.core.process is Held
    &&& !(view.core.thread is Held)
    &&& view.core.fault is None
    &&& view.stepping =~= Map::empty()
}

/// A session that is about to read the argument of `call`, with `breakpoint` taken out.
pub open spec fn at_argument(view: SessionView, breakpoint: SoftwareBreakpoint, call: Call) -> bool {
    &&& view.core.stage is HitReadArgument
    &&& view.core.breakpoint == Some(SoftwareBreakpoint { is_active: false, ..breakpoint })
    &&& view.core.process is Held
    &&& view.core.thread is Held
    &&& view.core.fault is None
    &&& view.core.process_id == call.process_id
    &&& view.core.thread_id == call.thread_id
    &&& view.core.status == ContinueStatus::Continue
    &&& !view.core.exiting
    &&& view.core.context == call.context
    &&& view.stepping =~= Map::empty()
}

/// A session that waits for the next event while the thread of `call` steps over
/// `breakpoint`.
pub open spec fn stepping_over(
    view: SessionView,
    breakpoint: SoftwareBreakpoint,
    call: Call,
) -> bool {
    &&& view.core.stage is Wait
    &&& view.core.breakpoint == Some(SoftwareBreakpoint { is_active: false, ..breakpoint })
    &&& view.core.process is Held
    &&& !(view.core.thread is Held)
    &&& view.core.fault is None
    &&& view.stepping =~= Map::empty().insert(
        call.thread_id,
        ThreadStepState { breakpoint_address: breakpoint.address },
    )
}

/// The replies from the trap at the breakpoint to the registers of the thread: the trap,
/// the original byte written back, the cache flushed, the thread opened, its registers
/// read.
pub open spec fn hit_script(address: u64, call: Call) -> Seq<Reply> {
    Seq::<Reply>::empty().push(
        Reply::Event(
            DebugEvent {
                process_id: call.process_id,
                thread_id: call.thread_id,
                kind: DebugEventKind::Exception { code: EXCEPTION_BREAKPOINT, address },
            },
        ),
    ).push(Reply::Written { count: 1 }).push(Reply::Done).push(
        Reply::Thread { handle_valid: true },
    ).push(Reply::Context(call.context))
}

/// The replies from the read at the argument to the program running on with the trap flag
/// set: the argument, the registers written, the thread closed, the event continued.
pub open spec fn release_script(call: Call) -> Seq<Reply> {
    Seq::<Reply>::empty().push(call.argument).push(Reply::Done).push(Reply::Done).push(Reply::Done)
}

/// The replies from the single-step trap to the program running on with the breakpoint
/// back in place: the trap, the thread opened, its registers read and written, the trap
/// instruction written, the cache flushed, the thread closed, the event continued.
pub open spec fn step_script(call: Call) -> Seq<Reply> {
    Seq::<Reply>::empty().push(
        Reply::Event(
            DebugEvent {
                process_id: call.process_id,
                thread_id: call.thread_id,
                kind: DebugEventKind::Exception { code: EXCEPTION_SINGLE_STEP, address: 0 },
            },
        ),
    ).push(Reply::Thread { handle_valid: true }).push(Reply::Context(call.step_context)).push(
        Reply::Done,
    ).push(Reply::Written { count: 1 }).push(Reply::Done).push(Reply::Done).push(Reply::Done)
}

/// The replies from the read at the argument to the end of the session: the argument, the
/// trap instruction written back, the cache flushed, the thread closed, the program ended,
/// its handle closed.
pub open spec fn found_script(call: Call) -> Seq<Reply> {
    Seq::<Reply>::empty().push(call.argument).push(Reply::Written { count: 1 }).push(
        Reply::Done,
    ).push(Reply::Done).push(Reply::Done).push(Reply::Done)
}

/// The replies of a call that is stepped over.
pub open spec fn decoy_script(address: u64, call: Call) -> Seq<Reply> {
    hit_script(address, call) + release_script(call) + step_script(call)
}

/// The replies of the call that carries the key.
pub open spec fn key_script(address: u64, call: Call) -> Seq<Reply> {
    hit_script(address, call) + found_script(call)
}

/// The replies of the calls `decoys`, in order, and then of the call `last`.
pub open spec fn calls_script(address: u64, decoys: Seq<Call>, last: Call) -> Seq<Reply>
    decreases decoys.len(),
{
    if decoys.len() == 0 {
        key_script(address, last)
    } else {
        decoy_script(address, decoys.first()) + calls_script(address, decoys.drop_first(), last)
    }
}

/// One more reply is one more step, and adds to the tally what it counts for.
proof fn lemma_push(view: SessionView, replies: Seq<Reply>, reply: Reply)
    ensures
        run(view, replies.push(reply)) == crate::ntqq::windows::laws::advance(
            run(view, replies),
            reply,
        ),
        tally(view, replies.push(reply)) == sum(
            tally(view, replies),
            tally_of(run(view, replies), reply),
        ),
{
    lemma_run_push(view, replies, reply);
    lemma_count_push(view, replies, reply, stepped_over());
    lemma_count_push(view, replies, reply, found());
    lemma_count_push(view, replies, reply, stepping_begun());
    lemma_count_push(view, replies, reply, stepping_ended());
    lemma_count_push(view, replies, reply, terminate_requested());
}

/// Replies told in two parts: the run goes on from where the first part led, and the
/// tallies of the parts add up.
proof fn lemma_concat(view: SessionView, first: Seq<Reply>, second: Seq<Reply>)
    ensures
        run(view, first + second) == run(run(view, first), second),
        tally(view, first + second) == sum(tally(view, first), tally(run(view, first), second)),
{
    lemma_run_concat(view, first, second, stepped_over());
    lemma_run_concat(view, first, second, found());
    lemma_run_concat(view, first, second, stepping_begun());
    lemma_run_concat(view, first, second, stepping_ended());
    lemma_run_concat(view, first, second, terminate_requested());
}

/// From the trap at the armed breakpoint to the read at the argument.
proof fn lemma_hit(view: SessionView, breakpoint: SoftwareBreakpoint, call: Call)
    requires
        armed(view, breakpoint),
    ensures
        at_argument(run(view, hit_script(breakpoint.address, call)), breakpoint, call),
        run(view, hit_script(breakpoint.address, call)).key == view.key,
        tally(view, hit_script(breakpoint.address, call)) == tally_after(0, 0),
{
    let e = Seq::<Reply>::empty();
    let event = DebugEvent {
        process_id: call.process_id,
        thread_id: call.thread_id,
        kind: DebugEventKind::Exception { code: EXCEPTION_BREAKPOINT, address: breakpoint.address },
    };
    let written = Reply::Written { count: 1 };
    let opened = Reply::Thread { handle_valid: true };
    lemma_push(view, e, Reply::Event(event));
    lemma_step_trapped(view, event);
    let s1 = e.push(Reply::Event(event));
    lemma_push(view, s1, written);
    lemma_step_written(run(view, s1));
    let s2 = s1.push(written);
    lemma_push(view, s2, Reply::Done);
    lemma_step_done(run(view, s2));
    let s3 = s2.push(Reply::Done);
    lemma_push(view, s3, opened);
    lemma_step_opened(run(view, s3));
    let s4 = s3.push(opened);
    lemma_push(view, s4, Reply::Context(call.context));
    lemma_step_context(run(view, s4), call.context);
}

/// From the read at an argument that is no key to the program running on with the trap
/// flag set.
proof fn lemma_release(view: SessionView, breakpoint: SoftwareBreakpoint, call: Call)
    requires
        at_argument(view, breakpoint, call),
        is_decoy(call),
    ensures
        stepping_over(run(view, release_script(call)), breakpoint, call),
        run(view, release_script(call)).key == view.key,
        tally(view, release_script(call)) == (Tally {
            bypasses: 0,
            keys: 0,
            begun: 1,
            ended: 0,
            terminations: 0,
        }),
{
    let e = Seq::<Reply>::empty();
    lemma_push(view, e, call.argument);
    lemma_step_argument(view, call.argument);
    let s1 = e.push(call.argument);
    lemma_push(view, s1, Reply::Done);
    lemma_step_released(run(view, s1));
    let s2 = s1.push(Reply::Done);
    lemma_push(view, s2, Reply::Done);
    lemma_step_closed(run(view, s2), Reply::Done);
    let s3 = s2.push(Reply::Done);
    lemma_push(view, s3, Reply::Done);
    lemma_step_continued(run(view, s3));
}

/// From the single-step trap to the program running on with the breakpoint back in place.
proof fn lemma_step_over(view: SessionView, breakpoint: SoftwareBreakpoint, call: Call)
    requires
        stepping_over(view, breakpoint, call),
        breakpoint.is_active,
    ensures
        armed(run(view, step_script(call)), breakpoint),
        run(view, step_script(call)).key == view.key,
        tally(view, step_script(call)) == (Tally {
            bypasses: 1,
            keys: 0,
            begun: 0,
            ended: 1,
            terminations: 0,
        }),
{
    let e = Seq::<Reply>::empty();
    let event = DebugEvent {
        process_id: call.process_id,
        thread_id: call.thread_id,
        kind: DebugEventKind::Exception { code: EXCEPTION_SINGLE_STEP, address: 0 },
    };
    let written = Reply::Written { count: 1 };
    let opened = Reply::Thread { handle_valid: true };
    assert(view.stepping.contains_key(call.thread_id));
    lemma_push(view, e, Reply::Event(event));
    lemma_step_single_stepped(view, event);
    let s1 = e.push(Reply::Event(event));
    assert(run(view, s1).stepping =~= Map::empty());
    lemma_push(view, s1, opened);
    lemma_step_opened(run(view, s1));
    let s2 = s1.push(opened);
    lemma_push(view, s2, Reply::Context(call.step_context));
    lemma_step_context(run(view, s2), call.step_context);
    let s3 = s2.push(Reply::Context(call.step_context));
    lemma_push(view, s3, Reply::Done);
    lemma_step_done(run(view, s3));
    let s4 = s3.push(Reply::Done);
    lemma_push(view, s4, written);
    lemma_step_written(run(view, s4));
    let s5 = s4.push(written);
    lemma_push(view, s5, Reply::Done);
    lemma_step_done(run(view, s5));
    let s6 = s5.push(Reply::Done);
    lemma_push(view, s6, Reply::Done);
    lemma_step_closed(run(view, s6), Reply::Done);
    let s7 = s6.push(Reply::Done);
    lemma_push(view, s7, Reply::Done);
    lemma_step_continued(run(view, s7));
}

/// From the read at an argument that passes for a key to the end of the session.
proof fn lemma_found(view: SessionView, breakpoint: SoftwareBreakpoint, call: Call)
    requires
        at_argument(view, breakpoint, call),
        carries_key(call),
    ensures
        ({
            let end = run(view, found_script(call));
            &&& end.core.stage is Finished
            &&& end.core.fault is None
            &&& end.key == argument_string(call.argument)
            &&& !(end.core.thread is Held)
            &&& !(end.core.process is Held)
            &&& end.stepping =~= Map::empty()
            &&& tally(view, found_script(call)) == tally_after(0, 1)
        }),
{
    let e = Seq::<Reply>::empty();
    let written = Reply::Written { count: 1 };
    lemma_push(view, e, call.argument);
    lemma_step_argument(view, call.argument);
    let s1 = e.push(call.argument);
    lemma_push(view, s1, written);
    lemma_step_written(run(view, s1));
    let s2 = s1.push(written);
    lemma_push(view, s2, Reply::Done);
    lemma_step_done(run(view, s2));
    let s3 = s2.push(Reply::Done);
    lemma_push(view, s3, Reply::Done);
    lemma_step_closed(run(view, s3), Reply::Done);
    let s4 = s3.push(Reply::Done);
    lemma_push(view, s4, Reply::Done);
    lemma_step_done(run(view, s4));
    let s5 = s4.push(Reply::Done);
    lemma_push(view, s5, Reply::Done);
    lemma_step_process_closed(run(view, s5), Reply::Done);
}

/// What holds at the end of a session that found the key of `last`: the key is the
/// outcome, no handle is held, and no thread is put down as stepping.
pub open spec fn ends_with_key(end: SessionView, last: Call) -> bool {
    &&& spec_outcome(end) == Some(
        Ok::<Seq<char>, crate::ntqq::windows::protocol::Fault>(
            spec_ascii_string(argument_string(last.argument)),
        ),
    )
    &&& !(end.core.thread is Held)
    &&& !(end.core.process is Held)
    &&& end.stepping =~= Map::empty()
}

/// One bypass. A call whose argument is no key is stepped over in one cycle: the thread is
/// put down as stepping once and taken off once, the breakpoint is put back once, and the
/// session waits with the breakpoint armed as before. No key is found, and the program is
/// not ended.
pub proof fn lemma_decoy_bypassed(view: SessionView, breakpoint: SoftwareBreakpoint, call: Call)
    requires
        armed(view, breakpoint),
        is_decoy(call),
    ensures
        armed(run(view, decoy_script(breakpoint.address, call)), breakpoint),
        run(view, decoy_script(breakpoint.address, call)).key == view.key,
        tally(view, decoy_script(breakpoint.address, call)) == tally_after(1, 0),
{
    let hit = hit_script(breakpoint.address, call);
    let release = release_script(call);
    let step = step_script(call);
    lemma_hit(view, breakpoint, call);
    let v1 = run(view, hit);
    lemma_release(v1, breakpoint, call);
    let v2 = run(v1, release);
    lemma_step_over(v2, breakpoint, call);
    lemma_concat(view, hit, release);
    lemma_concat(view, hit + release, step);
}

/// The call that carries the key ends the session with that key, without a bypass, and
/// the program is ended once.
pub proof fn lemma_key_found(view: SessionView, breakpoint: SoftwareBreakpoint, call: Call)
    requires
        armed(view, breakpoint),
        carries_key(call),
    ensures
        ends_with_key(run(view, key_script(breakpoint.address, call)), call),
        tally(view, key_script(breakpoint.address, call)) == tally_after(0, 1),
{
    let hit = hit_script(breakpoint.address, call);
    lemma_hit(view, breakpoint, call);
    lemma_found(run(view, hit), breakpoint, call);
    lemma_concat(view, hit, found_script(call));
}

/// The bypass of calls without the key ends. After any number of calls whose argument is
/// no key, the call that carries the key ends the session with that key. Each of the
/// earlier calls was stepped over in one cycle, so there were as many cycles as such calls:
/// that often a thread was put down as stepping, that often one was taken off, and that
/// often the breakpoint was put back. A key was found once, and the program was ended
/// once. No call is looked at while a step is pending: the breakpoint is out of the code
/// from the trap until the single step is over.
pub proof fn lemma_bypass_then_found(
    view: SessionView,
    breakpoint: SoftwareBreakpoint,
    decoys: Seq<Call>,
    last: Call,
)
    requires
        armed(view, breakpoint),
        forall|i: int| 0 <= i < decoys.len() ==> is_decoy(#[trigger] decoys[i]),
        carries_key(last),
    ensures
        ends_with_key(run(view, calls_script(breakpoint.address, decoys, last)), last),
        tally(view, calls_script(breakpoint.address, decoys, last)) == tally_after(
            decoys.len(),
            1,
        ),
    decreases decoys.len(),
{
    if decoys.len() == 0 {
        lemma_key_found(view, breakpoint, last);
    } else {
        let first = decoy_script(breakpoint.address, decoys.first());
        let rest = calls_script(breakpoint.address, decoys.drop_first(), last);
        lemma_decoy_bypassed(view, breakpoint, decoys.first());
        assert forall|i: int| 0 <= i < decoys.drop_first().len() implies is_decoy(
            #[trigger] decoys.drop_first()[i],
        ) by {
            assert(decoys.drop_first()[i] == decoys[i + 1]);
        }
        lemma_bypass_then_found(run(view, first), breakpoint, decoys.drop_first(), last);
        lemma_concat(view, first, rest);
    }
}

/// The replies under which a session gets from its beginning to the armed breakpoint: the
/// executable is there, the process is created, the handle of its first thread is closed,
/// a module is loaded, the modules are listed, the byte under the breakpoint is read, the
/// trap instruction is written, the cache is flushed, and the program runs on.
pub open spec fn launch_script(loaded: DebugEvent, modules: Reply, read: Reply) -> Seq<Reply> {
    Seq::<Reply>::empty().push(Reply::Executable { is_file: true }).push(
        Reply::Process { process_id: loaded.process_id, handle_valid: true, thread_valid: true },
    ).push(Reply::Done).push(Reply::Event(loaded)).push(modules).push(read).push(
        Reply::Written { count: 1 },
    ).push(Reply::Done).push(Reply::Done)
}

/// Launching arms the breakpoint. Once the native module is loaded, the breakpoint stands
/// at the address of the module plus the offset of the hooked routine, it holds the byte
/// that was read there, and the session waits for the program to run into it.
pub proof fn lemma_launch_arms(
    target_rva: u64,
    loaded: DebugEvent,
    modules: Reply,
    read: Reply,
    base: u64,
)
    requires
        loaded.kind is LoadDll,
        modules matches Reply::Modules(list) && spec_module_base(list@, WRAPPER_MODULE@) == Some(
            base,
        ),
        read matches Reply::Memory { bytes } && bytes@.len() == 1,
    ensures
        armed(
            run(initial(target_rva), launch_script(loaded, modules, read)),
            SoftwareBreakpoint {
                address: base.wrapping_add(target_rva),
                original_byte: read->bytes@[0],
                is_active: true,
            },
        ),
        tally(initial(target_rva), launch_script(loaded, modules, read)) == tally_after(0, 0),
{
    let view = initial(target_rva);
    let e = Seq::<Reply>::empty();
    let r1 = Reply::Executable { is_file: true };
    let r2 = Reply::Process { process_id: loaded.process_id, handle_valid: true, thread_valid: true };
    let written = Reply::Written { count: 1 };
    lemma_push(view, e, r1);
    lemma_step_executable(view);
    let s1 = e.push(r1);
    lemma_push(view, s1, r2);
    lemma_step_process(run(view, s1), loaded.process_id);
    let s2 = s1.push(r2);
    lemma_push(view, s2, Reply::Done);
    lemma_step_closed(run(view, s2), Reply::Done);
    let s3 = s2.push(Reply::Done);
    lemma_push(view, s3, Reply::Event(loaded));
    lemma_step_module_loaded(run(view, s3), loaded);
    let s4 = s3.push(Reply::Event(loaded));
    lemma_push(view, s4, modules);
    lemma_step_modules(run(view, s4), modules, base);
    let s5 = s4.push(modules);
    lemma_push(view, s5, read);
    lemma_step_original_read(run(view, s5), read);
    let s6 = s5.push(read);
    lemma_push(view, s6, written);
    lemma_step_written(run(view, s6));
    let s7 = s6.push(written);
    lemma_push(view, s7, Reply::Done);
    lemma_step_done(run(view, s7));
    let s8 = s7.push(Reply::Done);
    lemma_push(view, s8, Reply::Done);
    lemma_step_continued(run(view, s8));
}

/// A whole session. From its beginning, through the launch and through any number of calls
/// whose argument is no key, a session ends with the key of the call that carries it. For
/// each of the other calls a thread was put down as stepping once and taken off once, and
/// the breakpoint was put back once; a key was found once and the program was ended once;
/// and at the end every handle is let go and no thread is put down as stepping.
pub proof fn lemma_session_finds_key(
    target_rva: u64,
    loaded: DebugEvent,
    modules: Reply,
    read: Reply,
    base: u64,
    decoys: Seq<Call>,
    last: Call,
)
    requires
        loaded.kind is LoadDll,
        modules matches Reply::Modules(list) && spec_module_base(list@, WRAPPER_MODULE@) == Some(
            base,
        ),
        read matches Reply::Memory { bytes } && bytes@.len() == 1,
        forall|i: int| 0 <= i < decoys.len() ==> is_decoy(#[trigger] decoys[i]),
        carries_key(last),
    ensures
        ({
            let script = launch_script(loaded, modules, read) + calls_script(
                base.wrapping_add(target_rva),
                decoys,
                last,
            );
            &&& ends_with_key(run(initial(target_rva), script), last)
            &&& tally(initial(target_rva), script) == tally_after(decoys.len(), 1)
        }),
{
    let launch = launch_script(loaded, modules, read);
    let breakpoint = SoftwareBreakpoint {
        address: base.wrapping_add(target_rva),
        original_byte: read->bytes@[0],
        is_active: true,
    };
    let calls = calls_script(breakpoint.address, decoys, last);
    lemma_launch_arms(target_rva, loaded, modules, read, base);
    lemma_bypass_then_found(run(initial(target_rva), launch), breakpoint, decoys, last);
    lemma_concat(initial(target_rva), launch, calls);
}

} // verus!
