//! What holds of every debug session.

use crate::ntqq::windows::debug_process::spec_is_key;
use crate::ntqq::windows::protocol::{
    breakpoint_active, breakpoint_address, initial, next, pending, phase, HandleState, Phase,
    Reply, SessionView, Stage,
};
use vstd::prelude::*;

verus! {

/// The stages at which the session holds the handle of a thread.
pub open spec fn holds_thread(stage: Stage) -> bool {
    stage is LaunchCloseThread || stage is HitGetContext || stage is HitReadArgument || stage is BypassSetContext
        || stage is BypassCloseThread || stage is FoundRearm || stage is FoundRearmFlush
        || stage is FoundCloseThread || stage is StepGetContext || stage is StepSetContext
        || stage is StepRearm || stage is StepRearmFlush || stage is StepCloseThread
        || stage is AbortCloseThread
}

/// The stages at which the session holds the handle of the process, unless it is winding
/// down after a failure that came before the process was there.
pub open spec fn holds_process(stage: Stage) -> bool {
    !(stage is CheckExecutable || stage is CreateProcess || stage is Finished)
}

/// The stages of looking at a call of the hooked routine, from the trap to the verdict on
/// the argument and what follows from it.
pub open spec fn evaluates_hit(stage: Stage) -> bool {
    stage is HitRestore || stage is HitRestoreFlush || stage is HitOpenThread
        || stage is HitGetContext || stage is HitReadArgument || stage is BypassSetContext
        || stage is FoundRearm || stage is FoundRearmFlush || stage is FoundCloseThread
        || stage is FoundTerminate || stage is FoundCloseProcess
}

/// The stages of putting the breakpoint back after a single step, up to the write.
pub open spec fn rearms(stage: Stage) -> bool {
    stage is StepOpenThread || stage is StepGetContext || stage is StepSetContext
        || stage is StepRearm
}

/// The stages at which a key has been read.
pub open spec fn has_key(stage: Stage) -> bool {
    stage is FoundRearm || stage is FoundRearmFlush || stage is FoundCloseThread
        || stage is FoundTerminate || stage is FoundCloseProcess
}

/// The stages of winding down after a failure.
pub open spec fn winds_down(stage: Stage) -> bool {
    stage is AbortCloseThread || stage is AbortDisarm || stage is AbortTerminate
        || stage is AbortCloseProcess
}

/// What holds of a session at every moment.
///
/// - Handles are held at the stages that work with them and at no other stage; a session
///   that is over holds none.
/// - There is one breakpoint at most, and every thread that is stepping is stepping over
///   that breakpoint.
/// - While a thread is stepping the breakpoint is disarmed, so no call is looked at while a
///   step is pending, and no second thread can start to step.
/// - A session that has not failed and is past the verdict holds a string that passes for
///   a key.
/// - Once the process has exited the session only lets it go and ends.
pub open spec fn consistent(view: SessionView) -> bool {
    let core = view.core;
    let stage = core.stage;
    &&& core.thread is Held <==> holds_thread(stage)
    &&& core.process is Held ==> holds_process(stage)
    &&& stage is CheckExecutable || stage is CreateProcess ==> core.process is Absent
    &&& core.process is Released ==> stage is Finished
    &&& holds_process(stage) && !winds_down(stage) ==> core.process is Held
    &&& winds_down(stage) && !(stage is AbortCloseThread) ==> core.process is Held
    &&& breakpoint_active(core) ==> view.stepping.dom() =~= Set::empty()
    &&& forall|thread: u32| #[trigger]
        view.stepping.contains_key(thread) ==> core.breakpoint is Some
            && view.stepping[thread].breakpoint_address == breakpoint_address(core)
    &&& forall|a: u32, b: u32|
        view.stepping.contains_key(a) && view.stepping.contains_key(b) ==> a == b
    &&& stage is CheckExecutable || stage is CreateProcess || stage is LaunchCloseThread
        || stage is FindModule || stage is ArmRead ==> core.breakpoint is None
    &&& stage is Finished && core.fault is None ==> view.stepping.dom() =~= Set::empty()
    &&& stage is ArmWrite ==> core.breakpoint is Some && !breakpoint_active(core)
        && view.stepping.dom() =~= Set::empty()
    &&& stage is ArmFlush ==> breakpoint_active(core)
    &&& evaluates_hit(stage) ==> core.breakpoint is Some && view.stepping.dom() =~= Set::empty()
    &&& stage is HitRestore ==> breakpoint_active(core)
    &&& stage is HitRestoreFlush || stage is HitOpenThread || stage is HitGetContext
        || stage is HitReadArgument || stage is BypassSetContext || stage is FoundRearm
        ==> !breakpoint_active(core)
    &&& rearms(stage) ==> core.breakpoint is Some && !breakpoint_active(core)
        && view.stepping.dom() =~= Set::empty()
    &&& rearms(stage) || stage is StepRearmFlush ==> core.patch_address == breakpoint_address(
        core,
    )
    &&& winds_down(stage) || stage is ExitCloseProcess ==> core.fault is Some
    &&& core.exiting ==> stage is Continue || stage is ExitCloseProcess || winds_down(stage)
        || stage is Finished
    &&& core.fault is Some ==> winds_down(stage) || stage is ExitCloseProcess
        || stage is Finished
    &&& has_key(stage) || (stage is Finished && core.fault is None) ==> spec_is_key(view.key)
}

/// A session is consistent when it begins.
pub proof fn lemma_initial_consistent(target_rva: u64)
    ensures
        consistent(initial(target_rva)),
{
}

proof fn lemma_consistent_launch(view: SessionView, reply: Reply)
    requires
        consistent(view),
        view.core.stage is CheckExecutable || view.core.stage is CreateProcess || view.core.stage is LaunchCloseThread || view.core.stage is Continue || view.core.stage is Finished || view.core.stage is ExitCloseProcess,
    ensures
        consistent(next(view, reply)),
{
}

proof fn lemma_consistent_abort(view: SessionView, reply: Reply)
    requires
        consistent(view),
        view.core.stage is AbortCloseThread || view.core.stage is AbortDisarm || view.core.stage is AbortTerminate || view.core.stage is AbortCloseProcess,
    ensures
        consistent(next(view, reply)),
{
}

proof fn lemma_consistent_wait(view: SessionView, reply: Reply)
    requires
        consistent(view),
        view.core.stage is Wait,
    ensures
        consistent(next(view, reply)),
{
}

proof fn lemma_consistent_arm(view: SessionView, reply: Reply)
    requires
        consistent(view),
        view.core.stage is FindModule || view.core.stage is ArmRead || view.core.stage is ArmWrite || view.core.stage is ArmFlush,
    ensures
        consistent(next(view, reply)),
{
}

proof fn lemma_consistent_hit(view: SessionView, reply: Reply)
    requires
        consistent(view),
        view.core.stage is HitRestore || view.core.stage is HitRestoreFlush || view.core.stage is HitOpenThread || view.core.stage is HitGetContext,
    ensures
        consistent(next(view, reply)),
{
}

proof fn lemma_consistent_verdict(view: SessionView, reply: Reply)
    requires
        consistent(view),
        view.core.stage is HitReadArgument || view.core.stage is BypassSetContext || view.core.stage is BypassCloseThread,
    ensures
        consistent(next(view, reply)),
{
}

proof fn lemma_consistent_found(view: SessionView, reply: Reply)
    requires
        consistent(view),
        view.core.stage is FoundRearm || view.core.stage is FoundRearmFlush || view.core.stage is FoundCloseThread || view.core.stage is FoundTerminate || view.core.stage is FoundCloseProcess,
    ensures
        consistent(next(view, reply)),
{
}

proof fn lemma_consistent_step(view: SessionView, reply: Reply)
    requires
        consistent(view),
        view.core.stage is StepOpenThread || view.core.stage is StepGetContext || view.core.stage is StepSetContext || view.core.stage is StepRearm || view.core.stage is StepRearmFlush || view.core.stage is StepCloseThread,
    ensures
        consistent(next(view, reply)),
{
}

/// A consistent session stays consistent, whatever it is told.
pub proof fn lemma_next_consistent(view: SessionView, reply: Reply)
    requires
        consistent(view),
    ensures
        consistent(next(view, reply)),
{
    match view.core.stage {
        Stage::CheckExecutable | Stage::CreateProcess | Stage::LaunchCloseThread | Stage::Continue | Stage::Finished | Stage::ExitCloseProcess => {
            lemma_consistent_launch(view, reply);
        },
        Stage::AbortCloseThread | Stage::AbortDisarm | Stage::AbortTerminate | Stage::AbortCloseProcess => {
            lemma_consistent_abort(view, reply);
        },
        Stage::Wait => {
            lemma_consistent_wait(view, reply);
        },
        Stage::FindModule | Stage::ArmRead | Stage::ArmWrite | Stage::ArmFlush => {
            lemma_consistent_arm(view, reply);
        },
        Stage::HitRestore | Stage::HitRestoreFlush | Stage::HitOpenThread | Stage::HitGetContext => {
            lemma_consistent_hit(view, reply);
        },
        Stage::HitReadArgument | Stage::BypassSetContext | Stage::BypassCloseThread => {
            lemma_consistent_verdict(view, reply);
        },
        Stage::FoundRearm | Stage::FoundRearmFlush | Stage::FoundCloseThread | Stage::FoundTerminate | Stage::FoundCloseProcess => {
            lemma_consistent_found(view, reply);
        },
        Stage::StepOpenThread | Stage::StepGetContext | Stage::StepSetContext | Stage::StepRearm | Stage::StepRearmFlush | Stage::StepCloseThread => {
            lemma_consistent_step(view, reply);
        },
    }
}

/// One step of a session: the state after the request it waited on was answered. This is
/// [`next`] under a name that proofs about runs do not look into unless they ask to.
#[verifier::opaque]
pub open spec fn advance(view: SessionView, reply: Reply) -> SessionView {
    next(view, reply)
}

/// No call is looked at while a step is pending: in a consistent session that looks at a
/// hit, or that is armed, no thread is stepping; and while a thread is stepping, the
/// session is stepping over, or is on its way out.
pub proof fn lemma_no_hit_while_stepping(view: SessionView)
    requires
        consistent(view),
    ensures
        phase(view) == Phase::Armed || phase(view) == Phase::Found ==> view.stepping.dom()
            =~= Set::empty(),
        phase(view) == Phase::EvaluatingHit && !(view.core.stage is BypassCloseThread)
            ==> view.stepping.dom() =~= Set::empty(),
        forall|thread: u32| #[trigger]
            view.stepping.contains_key(thread) ==> phase(view) == Phase::SteppingOver || phase(
                view,
            ) == Phase::Aborted || view.core.stage is BypassCloseThread,
{
    if exists|thread: u32| view.stepping.contains_key(thread) {
        let thread = choose|thread: u32| view.stepping.contains_key(thread);
        assert(view.stepping.dom().contains(thread));
    }
}

/// One step is what the rules of the session say.
pub proof fn lemma_advance(view: SessionView, reply: Reply)
    ensures
        advance(view, reply) == next(view, reply),
{
    reveal(advance);
}

/// The state of a session after it was told `replies`, one after the other.
pub open spec fn run(view: SessionView, replies: Seq<Reply>) -> SessionView
    decreases replies.len(),
{
    if replies.len() == 0 {
        view
    } else {
        advance(run(view, replies.drop_last()), replies.last())
    }
}

/// How many of `replies` came at a moment of which `what` holds: `what` is asked of the
/// state that the session was in and of the reply that it was told then.
pub open spec fn count(
    view: SessionView,
    replies: Seq<Reply>,
    what: spec_fn(SessionView, Reply) -> bool,
) -> nat
    decreases replies.len(),
{
    if replies.len() == 0 {
        0
    } else {
        let before = run(view, replies.drop_last());
        count(view, replies.drop_last(), what) + if what(before, replies.last()) {
            1nat
        } else {
            0nat
        }
    }
}

/// One more reply is one more step.
pub proof fn lemma_run_push(view: SessionView, replies: Seq<Reply>, reply: Reply)
    ensures
        run(view, replies.push(reply)) == advance(run(view, replies), reply),
{
    assert(replies.push(reply).drop_last() =~= replies);
}

/// One more reply counts if it came at such a moment.
pub proof fn lemma_count_push(
    view: SessionView,
    replies: Seq<Reply>,
    reply: Reply,
    what: spec_fn(SessionView, Reply) -> bool,
)
    ensures
        count(view, replies.push(reply), what) == count(view, replies, what) + if what(
            run(view, replies),
            reply,
        ) {
            1nat
        } else {
            0nat
        },
{
    assert(replies.push(reply).drop_last() =~= replies);
}

/// Replies told in two parts lead where the second part leads from where the first part
/// led, and the counts of the parts add up.
pub proof fn lemma_run_concat(
    view: SessionView,
    first: Seq<Reply>,
    second: Seq<Reply>,
    what: spec_fn(SessionView, Reply) -> bool,
)
    ensures
        run(view, first + second) == run(run(view, first), second),
        count(view, first + second, what) == count(view, first, what) + count(
            run(view, first),
            second,
            what,
        ),
    decreases second.len(),
{
    if second.len() == 0 {
        assert(first + second =~= first);
    } else {
        assert((first + second).drop_last() =~= first + second.drop_last());
        lemma_run_concat(view, first, second.drop_last(), what);
    }
}

/// A consistent session stays consistent through any replies.
pub proof fn lemma_run_consistent(view: SessionView, replies: Seq<Reply>)
    requires
        consistent(view),
    ensures
        consistent(run(view, replies)),
    decreases replies.len(),
{
    if replies.len() > 0 {
        reveal(advance);
        lemma_run_consistent(view, replies.drop_last());
        lemma_next_consistent(run(view, replies.drop_last()), replies.last());
    }
}

/// One for a handle that is held, zero for one that is not.
pub open spec fn held(state: HandleState) -> nat {
    if state is Held {
        1
    } else {
        0
    }
}

/// The moments at which the handle of a thread is acquired: the thread was to be opened and
/// a valid handle came back, or the process was created and a valid handle of its first
/// thread came with it.
pub open spec fn thread_opened() -> spec_fn(SessionView, Reply) -> bool {
    |view: SessionView, reply: Reply|
        (pending(view.core) is OpenThread && reply matches Reply::Thread { handle_valid: true })
            || (pending(view.core) is CreateProcess && reply matches Reply::Process {
            thread_valid: true,
            ..
        })
}

/// The moments at which the handle of a thread is released: it was to be closed.
pub open spec fn thread_closed() -> spec_fn(SessionView, Reply) -> bool {
    |view: SessionView, reply: Reply| pending(view.core) is CloseThread
}

/// The moments at which the handle of the process is acquired: the process was to be
/// created and a valid handle came back.
pub open spec fn process_opened() -> spec_fn(SessionView, Reply) -> bool {
    |view: SessionView, reply: Reply|
        pending(view.core) is CreateProcess && reply matches Reply::Process {
            handle_valid: true,
            ..
        }
}

/// The moments at which the handle of the process is released: it was to be closed.
pub open spec fn process_closed() -> spec_fn(SessionView, Reply) -> bool {
    |view: SessionView, reply: Reply| pending(view.core) is CloseProcess
}

/// One step and the handles. A handle is only closed while it is held, and is not held
/// afterwards; a handle is only acquired while none is held; and nothing else changes
/// whether a handle is held. The handle of the process is acquired in the first two stages
/// alone.
pub proof fn lemma_step_handles(view: SessionView, reply: Reply)
    requires
        consistent(view),
    ensures
        thread_closed()(view, reply) ==> view.core.thread is Held && !(next(
            view,
            reply,
        ).core.thread is Held),
        thread_opened()(view, reply) ==> !(view.core.thread is Held) && next(
            view,
            reply,
        ).core.thread is Held,
        !thread_closed()(view, reply) && !thread_opened()(view, reply) ==> held(
            next(view, reply).core.thread,
        ) == held(view.core.thread),
        process_closed()(view, reply) ==> view.core.process is Held && next(
            view,
            reply,
        ).core.process is Released,
        process_opened()(view, reply) ==> view.core.process is Absent && next(
            view,
            reply,
        ).core.process is Held,
        !process_closed()(view, reply) && !process_opened()(view, reply) ==> next(
            view,
            reply,
        ).core.process == view.core.process,
{
    lemma_next_consistent(view, reply);
}

/// Handles are in balance over any run of a session: those released and those still held
/// make up those acquired and those held at the start.
pub proof fn lemma_handles_balance(view: SessionView, replies: Seq<Reply>)
    requires
        consistent(view),
    ensures
        count(view, replies, thread_closed()) + held(run(view, replies).core.thread) == count(
            view,
            replies,
            thread_opened(),
        ) + held(view.core.thread),
        count(view, replies, process_closed()) + held(run(view, replies).core.process) == count(
            view,
            replies,
            process_opened(),
        ) + held(view.core.process),
    decreases replies.len(),
{
    if replies.len() > 0 {
        reveal(advance);
        let before = run(view, replies.drop_last());
        lemma_handles_balance(view, replies.drop_last());
        lemma_run_consistent(view, replies.drop_last());
        lemma_step_handles(before, replies.last());
    }
}

/// No double release. In a session that has run from its beginning to its end, on whatever
/// path, every handle that was acquired has been released, and released once: as many
/// handles were closed as were acquired, none was closed that was not held, and the session
/// holds none at the end.
pub proof fn lemma_handles_released_once(target_rva: u64, replies: Seq<Reply>)
    requires
        run(initial(target_rva), replies).core.stage is Finished,
    ensures
        count(initial(target_rva), replies, thread_closed()) == count(
            initial(target_rva),
            replies,
            thread_opened(),
        ),
        count(initial(target_rva), replies, process_closed()) == count(
            initial(target_rva),
            replies,
            process_opened(),
        ),
        !(run(initial(target_rva), replies).core.thread is Held),
        !(run(initial(target_rva), replies).core.process is Held),
{
    lemma_initial_consistent(target_rva);
    lemma_run_consistent(initial(target_rva), replies);
    lemma_handles_balance(initial(target_rva), replies);
}

/// The moments at which the program is to be ended.
pub open spec fn terminate_requested() -> spec_fn(SessionView, Reply) -> bool {
    |view: SessionView, reply: Reply| pending(view.core) is TerminateProcess
}

/// The moments at which the byte of the program is to be written back because the session
/// has failed.
pub open spec fn disarm_attempted() -> spec_fn(SessionView, Reply) -> bool {
    |view: SessionView, reply: Reply| view.core.stage is AbortDisarm
}

/// What holds of a session that has been asked `terminated` times to end the program and
/// has tried `disarmed` times to take the breakpoint out after a failure: the handle of the
/// process is not let go before the program has exited or was to be ended, and a session
/// that has failed does not end the program with the breakpoint marked active before it
/// has tried to take it out.
pub open spec fn cleans_up(view: SessionView, terminated: nat, disarmed: nat) -> bool {
    let stage = view.core.stage;
    &&& stage is FoundCloseProcess || stage is AbortCloseProcess ==> terminated >= 1
    &&& stage is ExitCloseProcess ==> view.core.exiting
    &&& view.core.process is Released ==> terminated >= 1 || view.core.exiting
    &&& (stage is AbortTerminate || stage is AbortCloseProcess || (stage is Finished
        && view.core.fault is Some && view.core.process is Released)) && breakpoint_active(
        view.core,
    ) && !view.core.exiting ==> disarmed >= 1
}

/// One step keeps a session cleaning up.
pub proof fn lemma_next_cleans_up(
    view: SessionView,
    reply: Reply,
    terminated: nat,
    disarmed: nat,
)
    requires
        consistent(view),
        cleans_up(view, terminated, disarmed),
    ensures
        cleans_up(
            next(view, reply),
            terminated + if terminate_requested()(view, reply) {
                1nat
            } else {
                0nat
            },
            disarmed + if disarm_attempted()(view, reply) {
                1nat
            } else {
                0nat
            },
        ),
{
    lemma_next_consistent(view, reply);
}

/// A session keeps cleaning up through any replies.
pub proof fn lemma_run_cleans_up(view: SessionView, replies: Seq<Reply>)
    requires
        consistent(view),
        cleans_up(view, 0, 0),
    ensures
        cleans_up(
            run(view, replies),
            count(view, replies, terminate_requested()),
            count(view, replies, disarm_attempted()),
        ),
    decreases replies.len(),
{
    if replies.len() > 0 {
        reveal(advance);
        lemma_run_cleans_up(view, replies.drop_last());
        lemma_run_consistent(view, replies.drop_last());
        lemma_next_cleans_up(
            run(view, replies.drop_last()),
            replies.last(),
            count(view, replies.drop_last(), terminate_requested()),
            count(view, replies.drop_last(), disarm_attempted()),
        );
    }
}

/// Every exit path cleans up. A session that has run from its beginning to its end and
/// had created the process has asked for the program to be ended, unless the program had
/// exited by itself. And a session that ends in failure while the program is there has
/// tried to take the breakpoint out, unless the breakpoint was out already.
pub proof fn lemma_exit_paths_clean_up(target_rva: u64, replies: Seq<Reply>)
    requires
        run(initial(target_rva), replies).core.stage is Finished,
    ensures
        ({
            let end = run(initial(target_rva), replies);
            &&& end.core.process is Released && !end.core.exiting ==> count(
                initial(target_rva),
                replies,
                terminate_requested(),
            ) >= 1
            &&& end.core.process is Released && !end.core.exiting && end.core.fault is Some
                && breakpoint_active(end.core) ==> count(
                initial(target_rva),
                replies,
                disarm_attempted(),
            ) >= 1
        }),
{
    lemma_initial_consistent(target_rva);
    lemma_run_cleans_up(initial(target_rva), replies);
}

} // verus!
