use ntdb_unwrap::ntqq::windows::debug_process::{
    all_printable, eq_ignore_ascii_case, get_module_base, is_key, parse_string_data,
    read_remote_string, DebugInfo,
    Module, SoftwareBreakpoint, ThreadContext, ARGUMENT_LIMIT, EXCEPTION_BREAKPOINT,
    EXCEPTION_SINGLE_STEP, TRAP_FLAG, TRAP_OPCODE,
};
use ntdb_unwrap::ntqq::windows::protocol::{
    ContinueStatus, DebugEvent, DebugEventKind, Phase, Reply, Request,
};
use ntdb_unwrap::ntqq::windows::{
    debug_for_key, DebugFailure, DebugSession, Error, InstalledQQInfo, ProcessorArchitecture,
    TargetFunction, WindowsOperation,
};
use std::collections::{HashMap, VecDeque};
use std::path::PathBuf;

const BASE: u64 = 0x7ff6_1000_0000;
const RVA: u64 = 0x1030;
const HOOK: u64 = BASE + RVA;
const PID: u32 = 4242;

fn info() -> DebugInfo {
    DebugInfo {
        qq: InstalledQQInfo { install_dir: PathBuf::from("C:/QQ"), version: None },
        func: TargetFunction { function_offset: RVA, lea_instr_offset: 0x1040 },
    }
}

fn session() -> DebugSession {
    match debug_for_key(&info(), ProcessorArchitecture::X64) {
        Ok(session) => session,
        Err(e) => panic!("{}", e.message()),
    }
}

fn event(thread_id: u32, kind: DebugEventKind) -> DebugEvent {
    DebugEvent { process_id: PID, thread_id, kind }
}

fn breakpoint_at(thread_id: u32, address: u64) -> DebugEvent {
    event(thread_id, DebugEventKind::Exception { code: EXCEPTION_BREAKPOINT, address })
}

fn single_step(thread_id: u32) -> DebugEvent {
    event(thread_id, DebugEventKind::Exception { code: EXCEPTION_SINGLE_STEP, address: HOOK + 1 })
}

/// A program under the debugger, as far as a session can tell: memory, the strings that
/// its threads hand to the hooked routine, and the events that it is going to raise.
struct Program {
    executable: bool,
    modules: Vec<(Vec<u8>, u64)>,
    memory: HashMap<u64, u8>,
    strings: HashMap<u64, Vec<u8>>,
    registers: HashMap<u32, ThreadContext>,
    events: VecDeque<DebugEvent>,
    open_thread: Option<u32>,
    threads_opened: usize,
    threads_closed: usize,
    processes_opened: usize,
    processes_closed: usize,
    terminated: usize,
    continued: Vec<(u32, ContinueStatus)>,
    steps_started: usize,
    rearmed_after_step: usize,
    fail: Option<Request>,
    log: Vec<Request>,
}

impl Program {
    fn new() -> Program {
        let mut memory = HashMap::new();
        memory.insert(HOOK, 0x55);
        Program {
            executable: true,
            modules: vec![(b"ntdll.dll".to_vec(), 0x7ff8_0000_0000), (b"wrapper.node".to_vec(), BASE)],
            memory,
            strings: HashMap::new(),
            registers: HashMap::new(),
            events: VecDeque::new(),
            open_thread: None,
            threads_opened: 0,
            threads_closed: 0,
            processes_opened: 0,
            processes_closed: 0,
            terminated: 0,
            continued: Vec::new(),
            steps_started: 0,
            rearmed_after_step: 0,
            fail: None,
            log: Vec::new(),
        }
    }

    /// A thread that calls the hooked routine with `string` as its argument.
    fn call(&mut self, thread_id: u32, pointer: u64, string: &[u8]) {
        let mut bytes = string.to_vec();
        bytes.push(0);
        bytes.resize(ARGUMENT_LIMIT, 0xaa);
        self.strings.insert(pointer, bytes);
        self.registers.insert(thread_id, ThreadContext { rip: HOOK + 1, r8: pointer, eflags: 0x246 });
        self.events.push_back(breakpoint_at(thread_id, HOOK));
    }

    fn perform(&mut self, request: Request) -> Reply {
        self.log.push(request);
        if self.fail == Some(request) {
            return Reply::Failed { code: 5 };
        }
        match request {
            Request::CheckExecutable => Reply::Executable { is_file: self.executable },
            Request::CreateProcess => {
                self.processes_opened += 1;
                self.threads_opened += 1;
                self.open_thread = Some(1);
                Reply::Process { process_id: PID, handle_valid: true, thread_valid: true }
            },
            Request::WaitForDebugEvent { timeout_ms } => {
                assert_eq!(timeout_ms, 10_000);
                match self.events.pop_front() {
                    Some(event) => Reply::Event(event),
                    None => panic!("the session waits, and nothing is going to happen"),
                }
            },
            Request::ListModules { process_id } => {
                assert_eq!(process_id, PID);
                Reply::Modules(
                    self.modules.iter().map(|(name, base)| Module { name: name.clone(), base: *base }).collect(),
                )
            },
            Request::ReadMemory { address, len } => {
                if len == 1 {
                    match self.memory.get(&address) {
                        Some(byte) => Reply::Memory { bytes: vec![*byte] },
                        None => Reply::Failed { code: 299 },
                    }
                } else {
                    assert_eq!(len, ARGUMENT_LIMIT);
                    match self.strings.get(&address) {
                        Some(bytes) => Reply::Memory { bytes: bytes.clone() },
                        None => Reply::Failed { code: 299 },
                    }
                }
            },
            Request::WriteMemory { address, byte } => {
                if self.log.len() >= 2
                    && matches!(self.log[self.log.len() - 2], Request::SetThreadContext { .. })
                    && byte == TRAP_OPCODE
                {
                    self.rearmed_after_step += 1;
                }
                self.memory.insert(address, byte);
                Reply::Written { count: 1 }
            },
            Request::FlushInstructionCache { len, .. } => {
                assert_eq!(len, 1);
                Reply::Done
            },
            Request::OpenThread { thread_id } => {
                assert!(self.open_thread.is_none(), "a thread is opened while another is open");
                self.open_thread = Some(thread_id);
                self.threads_opened += 1;
                Reply::Thread { handle_valid: true }
            },
            Request::GetThreadContext => {
                let thread = self.open_thread.expect("registers read without a thread");
                Reply::Context(self.registers[&thread])
            },
            Request::SetThreadContext { rip, eflags } => {
                let thread = self.open_thread.expect("registers written without a thread");
                let r8 = self.registers[&thread].r8;
                self.registers.insert(thread, ThreadContext { rip, r8, eflags });
                if eflags & TRAP_FLAG != 0 {
                    self.steps_started += 1;
                    self.events.push_front(single_step(thread));
                }
                Reply::Done
            },
            Request::CloseThread => {
                assert!(self.open_thread.take().is_some(), "a thread is closed that is not open");
                self.threads_closed += 1;
                Reply::Done
            },
            Request::ContinueDebugEvent { process_id, thread_id, status } => {
                assert_eq!(process_id, PID);
                self.continued.push((thread_id, status));
                Reply::Done
            },
            Request::TerminateProcess => {
                self.terminated += 1;
                Reply::Done
            },
            Request::CloseProcess => {
                assert_eq!(self.processes_closed, 0, "the process is closed twice");
                self.processes_closed += 1;
                Reply::Done
            },
            Request::Finish => panic!("a finished session is not to be driven on"),
        }
    }

    /// Drives the session to its end.
    fn run(&mut self, session: &mut DebugSession) -> Result<String, Error> {
        let mut request = session.request();
        let mut steps = 0;
        while request != Request::Finish {
            assert!(session.outcome().is_none());
            let reply = self.perform(request);
            request = session.step(reply);
            assert_eq!(request, session.request());
            steps += 1;
            assert!(steps < 10_000, "the session does not end");
        }
        assert!(session.is_finished());
        assert_eq!(self.threads_opened, self.threads_closed);
        assert_eq!(self.processes_opened, self.processes_closed);
        assert!(self.open_thread.is_none());
        match session.outcome() {
            Some(Ok(info)) => {
                assert!(info.cipher_hmac_algorithm.is_none());
                Ok(info.key)
            },
            Some(Err(e)) => Err(e),
            None => panic!("a finished session has an outcome"),
        }
    }
}

fn loaded() -> Program {
    let mut program = Program::new();
    program.events.push_back(event(1, DebugEventKind::CreateProcess));
    program.events.push_back(breakpoint_at(1, 0x7ff8_0001_0000));
    program.events.push_back(event(1, DebugEventKind::LoadDll));
    program
}

#[test]
fn other_architectures_are_refused() {
    for arch in [ProcessorArchitecture::Arm64, ProcessorArchitecture::Other] {
        match debug_for_key(&info(), arch) {
            Err(Error::UnsupportedArchitecture { arch: named }) => assert_eq!(named, arch),
            Err(e) => panic!("{}", e.message()),
            Ok(_) => panic!("a session for {:?}", arch),
        }
    }
    assert_eq!(session().request(), Request::CheckExecutable);
}

#[test]
fn session_begins_by_looking_for_the_executable() {
    let mut program = Program::new();
    program.executable = false;
    let mut session = session();
    match program.run(&mut session) {
        Err(Error::QQInstallationNotFound) => {},
        other => panic!("{:?}", other.map_err(|e| e.message())),
    }
    assert_eq!(program.log, vec![Request::CheckExecutable]);
}

#[test]
fn failed_process_creation_ends_the_session() {
    let mut program = Program::new();
    program.fail = Some(Request::CreateProcess);
    let mut session = session();
    match program.run(&mut session) {
        Err(Error::WindowsOp { op: WindowsOperation::CreateProcess, code: 5, address: None }) => {},
        other => panic!("{:?}", other.map_err(|e| e.message())),
    }
    assert_eq!(program.log, vec![Request::CheckExecutable, Request::CreateProcess]);
}

#[test]
fn invalid_process_handle_ends_the_session() {
    let mut session = session();
    assert_eq!(session.step(Reply::Executable { is_file: true }), Request::CreateProcess);
    assert_eq!(
        session.step(Reply::Process { process_id: PID, handle_valid: false, thread_valid: false }),
        Request::Finish
    );
    assert!(matches!(
        session.outcome(),
        Some(Err(Error::DebugForKey { reason: DebugFailure::InvalidProcessHandle, address: None }))
    ));
    // the handle of the first thread is let go where it came alone
    let mut session = self::session();
    session.step(Reply::Executable { is_file: true });
    assert_eq!(
        session.step(Reply::Process { process_id: PID, handle_valid: false, thread_valid: true }),
        Request::CloseThread
    );
    assert_eq!(session.step(Reply::Done), Request::Finish);
    assert!(matches!(
        session.outcome(),
        Some(Err(Error::DebugForKey { reason: DebugFailure::InvalidProcessHandle, address: None }))
    ));
    // and there is nothing to let go where the process came without it
    let mut session = self::session();
    session.step(Reply::Executable { is_file: true });
    assert_eq!(
        session.step(Reply::Process { process_id: PID, handle_valid: true, thread_valid: false }),
        Request::WaitForDebugEvent { timeout_ms: 10_000 }
    );
}

#[test]
fn key_is_read_at_the_first_call() {
    let mut program = loaded();
    program.call(7, 0x5000, b"0123456789abcdef");
    let mut session = session();
    assert_eq!(program.run(&mut session).map_err(|e| e.message()), Ok("0123456789abcdef".to_string()));
    assert_eq!(program.steps_started, 0);
    assert_eq!(program.terminated, 1);
    // the trap instruction is back in place when the program is ended
    assert_eq!(program.memory[&HOOK], TRAP_OPCODE);
    assert_eq!(
        session.breakpoint(),
        Some(SoftwareBreakpoint { address: HOOK, original_byte: 0x55, is_active: true })
    );
    // the instruction pointer is not moved on the way to the key
    assert_eq!(program.registers[&7].rip, HOOK + 1);
    // nothing is continued after the key was found
    assert_eq!(program.continued.last(), Some(&(1, ContinueStatus::Continue)));
}

#[test]
fn decoys_are_stepped_over_one_by_one() {
    for decoys in 0..5usize {
        let mut program = loaded();
        for i in 0..decoys {
            program.call(10 + i as u32, 0x6000 + 0x100 * i as u64, b"nt_msg.db");
        }
        program.call(99, 0x5000, b"0123456789abcdef");
        let mut session = session();
        assert_eq!(
            program.run(&mut session).map_err(|e| e.message()),
            Ok("0123456789abcdef".to_string())
        );
        assert_eq!(program.steps_started, decoys);
        assert_eq!(program.rearmed_after_step, decoys);
        assert_eq!(program.threads_opened, 2 * decoys + 2);
        assert_eq!(program.terminated, 1);
        for i in 0..decoys {
            let registers = program.registers[&(10 + i as u32)];
            assert_eq!(registers.rip, HOOK);
            assert_eq!(registers.eflags & TRAP_FLAG, 0);
            assert!(!session.is_stepping(10 + i as u32));
        }
    }
}

#[test]
fn session_passes_through_its_states_in_order() {
    let mut program = loaded();
    program.call(10, 0x6000, b"nt_msg.db");
    program.call(99, 0x5000, b"0123456789abcdef");
    let mut session = session();
    let mut phases = vec![session.phase()];
    let mut request = session.request();
    while request != Request::Finish {
        let reply = program.perform(request);
        request = session.step(reply);
        if phases.last() != Some(&session.phase()) {
            phases.push(session.phase());
        }
    }
    assert_eq!(
        phases,
        vec![
            Phase::Launching,
            Phase::WaitingForModule,
            Phase::Armed,
            Phase::EvaluatingHit,
            Phase::SteppingOver,
            Phase::Armed,
            Phase::EvaluatingHit,
            Phase::Found,
        ]
    );
    let mut gone = self::session();
    gone.step(Reply::Executable { is_file: true });
    gone.step(Reply::Process { process_id: PID, handle_valid: true, thread_valid: true });
    assert_eq!(gone.phase(), Phase::Launching);
    gone.step(Reply::Done);
    assert_eq!(gone.phase(), Phase::WaitingForModule);
    gone.step(Reply::Event(event(1, DebugEventKind::ExitProcess { exit_code: 3 })));
    assert_eq!(gone.phase(), Phase::Aborted);
}

#[test]
fn breakpoint_round_trip_restores_every_byte() {
    for original in 0..=255u8 {
        let mut session = session();
        let mut memory = HashMap::new();
        memory.insert(HOOK, original);
        assert_eq!(session.step(Reply::Executable { is_file: true }), Request::CreateProcess);
        assert_eq!(
            session.step(Reply::Process { process_id: PID, handle_valid: true, thread_valid: true }),
            Request::CloseThread
        );
        session.step(Reply::Done);
        assert_eq!(
            session.step(Reply::Event(event(1, DebugEventKind::LoadDll))),
            Request::ListModules { process_id: PID }
        );
        let modules = vec![Module { name: b"WRAPPER.NODE".to_vec(), base: BASE }];
        assert_eq!(
            session.step(Reply::Modules(modules)),
            Request::ReadMemory { address: HOOK, len: 1 }
        );
        assert_eq!(
            session.step(Reply::Memory { bytes: vec![memory[&HOOK]] }),
            Request::WriteMemory { address: HOOK, byte: TRAP_OPCODE }
        );
        memory.insert(HOOK, TRAP_OPCODE);
        assert_eq!(
            session.step(Reply::Written { count: 1 }),
            Request::FlushInstructionCache { address: HOOK, len: 1 }
        );
        assert_eq!(
            session.breakpoint(),
            Some(SoftwareBreakpoint { address: HOOK, original_byte: original, is_active: true })
        );
        assert_eq!(
            session.step(Reply::Done),
            Request::ContinueDebugEvent { process_id: PID, thread_id: 1, status: ContinueStatus::Continue }
        );
        assert_eq!(session.step(Reply::Done), Request::WaitForDebugEvent { timeout_ms: 10_000 });
        assert_eq!(
            session.step(Reply::Event(breakpoint_at(3, HOOK))),
            Request::WriteMemory { address: HOOK, byte: original }
        );
        memory.insert(HOOK, original);
        session.step(Reply::Written { count: 1 });
        assert_eq!(
            session.breakpoint(),
            Some(SoftwareBreakpoint { address: HOOK, original_byte: original, is_active: false })
        );
        assert_eq!(memory[&HOOK], original);
    }
}

#[test]
fn sixteen_printable_characters_pass_for_a_key() {
    assert!(is_key(b"not-the-secret!!"));
    let mut program = loaded();
    program.call(7, 0x5000, b"not-the-secret!!");
    let mut session = session();
    assert_eq!(program.run(&mut session).map_err(|e| e.message()), Ok("not-the-secret!!".to_string()));
}

#[test]
fn key_rule_goes_by_length_and_printability() {
    assert!(is_key(b"0123456789abcdef"));
    assert!(is_key(b"                "));
    assert!(is_key(b"~~~~~~~~~~~~~~~~"));
    assert!(!is_key(b"0123456789abcde"));
    assert!(!is_key(b"0123456789abcdef0"));
    assert!(!is_key(b""));
    assert!(!is_key(b"0123456789abcde\x7f"));
    assert!(!is_key(b"0123456789abcde\x1f"));
    assert!(!is_key(b"0123456789abcde\n"));
    assert!(!is_key("0123456789abcd\u{e9}".as_bytes()));
}

#[test]
fn strings_of_the_program_are_turned_into_text() {
    assert_eq!(parse_string_data(b"0123456789abcdef"), "0123456789abcdef");
    assert_eq!(parse_string_data(b" ~"), " ~");
    assert_eq!(parse_string_data(b""), "");
    assert_eq!(parse_string_data(b"a\tb"), "a\tb");
    assert_eq!(parse_string_data("nt_msg\u{e9}.db".as_bytes()), "nt_msg\u{e9}.db");
    assert_eq!(parse_string_data(b"a\xffb"), "a\u{fffd}b");
    assert!(all_printable(b"0123456789abcdef"));
    assert!(all_printable(b""));
    assert!(!all_printable(b"a\x7f"));
    assert!(!all_printable(b"a\x80"));
}

#[test]
fn remote_string_ends_at_the_first_zero() {
    let mut bytes = b"abc\0def\0".to_vec();
    bytes.resize(ARGUMENT_LIMIT, 0x41);
    assert_eq!(read_remote_string(&bytes, ARGUMENT_LIMIT), b"abc".to_vec());
    assert_eq!(read_remote_string(&vec![0x41; ARGUMENT_LIMIT], ARGUMENT_LIMIT), vec![0x41; ARGUMENT_LIMIT]);
    assert_eq!(read_remote_string(&vec![0; ARGUMENT_LIMIT], ARGUMENT_LIMIT), Vec::<u8>::new());
}

#[test]
fn short_read_yields_the_empty_string() {
    assert_eq!(read_remote_string(b"0123456789abcdef\0", ARGUMENT_LIMIT), Vec::<u8>::new());
    assert_eq!(read_remote_string(&[], ARGUMENT_LIMIT), Vec::<u8>::new());
    assert_eq!(read_remote_string(&vec![0x41; ARGUMENT_LIMIT - 1], ARGUMENT_LIMIT), Vec::<u8>::new());
}

#[test]
fn unreadable_argument_is_stepped_over() {
    let mut program = loaded();
    // a call whose argument points nowhere
    program.registers.insert(5, ThreadContext { rip: HOOK + 1, r8: 0x10, eflags: 0x202 });
    program.events.push_back(breakpoint_at(5, HOOK));
    program.call(6, 0x5000, b"0123456789abcdef");
    let mut session = session();
    assert_eq!(program.run(&mut session).map_err(|e| e.message()), Ok("0123456789abcdef".to_string()));
    assert_eq!(program.steps_started, 1);
    assert_eq!(program.registers[&5].rip, HOOK);
}

#[test]
fn exit_without_the_key_is_an_error() {
    let mut program = loaded();
    program.call(10, 0x6000, b"nt_msg.db");
    program.events.push_back(event(1, DebugEventKind::ExitProcess { exit_code: 0 }));
    let mut session = session();
    match program.run(&mut session) {
        Err(Error::DebugForKey { reason: DebugFailure::KeyNotFound, address: None }) => {},
        other => panic!("{:?}", other.map_err(|e| e.message())),
    }
    assert_eq!(program.terminated, 0);
    assert_eq!(program.steps_started, 1);
    assert_eq!(program.log.last(), Some(&Request::CloseProcess));
}

#[test]
fn exit_before_the_module_is_loaded_is_an_error() {
    let mut program = Program::new();
    program.events.push_back(event(1, DebugEventKind::CreateProcess));
    program.events.push_back(event(1, DebugEventKind::CreateThread));
    program.events.push_back(event(1, DebugEventKind::Other));
    program.events.push_back(event(1, DebugEventKind::ExitProcess { exit_code: 1 }));
    let mut session = session();
    match program.run(&mut session) {
        Err(Error::DebugForKey { reason: DebugFailure::KeyNotFound, address: None }) => {},
        other => panic!("{:?}", other.map_err(|e| e.message())),
    }
    assert_eq!(session.breakpoint(), None);
}

#[test]
fn module_is_awaited_until_it_is_loaded() {
    let mut program = Program::new();
    program.modules = vec![(b"ntdll.dll".to_vec(), 0x7ff8_0000_0000)];
    program.events.push_back(event(1, DebugEventKind::LoadDll));
    let mut session = session();
    let mut request = session.request();
    for _ in 0..6 {
        let reply = program.perform(request);
        request = session.step(reply);
    }
    // executable, process, thread, event, modules, continue: no breakpoint yet, and waiting
    // again
    assert_eq!(request, Request::WaitForDebugEvent { timeout_ms: 10_000 });
    assert_eq!(session.breakpoint(), None);
    // a failed listing is passed over as well
    assert_eq!(
        session.step(Reply::Event(event(1, DebugEventKind::LoadDll))),
        Request::ListModules { process_id: PID }
    );
    assert_eq!(
        session.step(Reply::Failed { code: 24 }),
        Request::ContinueDebugEvent { process_id: PID, thread_id: 1, status: ContinueStatus::Continue }
    );
    assert_eq!(session.step(Reply::Done), Request::WaitForDebugEvent { timeout_ms: 10_000 });
    // and a wait that ends without an event is repeated
    assert_eq!(session.step(Reply::Timeout), Request::WaitForDebugEvent { timeout_ms: 10_000 });
    assert_eq!(session.step(Reply::Failed { code: 121 }), Request::WaitForDebugEvent { timeout_ms: 10_000 });
}

#[test]
fn foreign_exceptions_are_passed_on() {
    let mut program = loaded();
    program.events.push_back(event(3, DebugEventKind::Exception { code: 0xc000_0005, address: 0x1234 }));
    program.events.push_back(single_step(3));
    program.events.push_back(breakpoint_at(3, HOOK + 0x10));
    program.call(7, 0x5000, b"0123456789abcdef");
    let mut session = session();
    assert!(program.run(&mut session).is_ok());
    let statuses: Vec<(u32, ContinueStatus)> =
        program.continued.iter().filter(|(thread, _)| *thread == 3).cloned().collect();
    assert_eq!(
        statuses,
        vec![
            (3, ContinueStatus::NotHandled),
            (3, ContinueStatus::NotHandled),
            (3, ContinueStatus::Continue),
        ]
    );
    assert_eq!(program.steps_started, 0);
    assert_eq!(program.threads_opened, 2);
}

#[test]
fn short_read_of_the_original_byte_fails_the_session() {
    let mut session = session();
    session.step(Reply::Executable { is_file: true });
    session.step(Reply::Process { process_id: PID, handle_valid: true, thread_valid: true });
    session.step(Reply::Done);
    session.step(Reply::Event(event(1, DebugEventKind::LoadDll)));
    session.step(Reply::Modules(vec![Module { name: b"wrapper.node".to_vec(), base: BASE }]));
    // nothing was written, so nothing is taken out: the program is ended and let go
    assert_eq!(session.step(Reply::Memory { bytes: vec![] }), Request::TerminateProcess);
    assert_eq!(session.step(Reply::Done), Request::CloseProcess);
    assert_eq!(session.step(Reply::Done), Request::Finish);
    assert!(matches!(
        session.outcome(),
        Some(Err(Error::DebugForKey { reason: DebugFailure::ReadOriginalByte, address: Some(HOOK) }))
    ));
    assert_eq!(session.step(Reply::Done), Request::Finish);
}

#[test]
fn every_failed_call_ends_the_session_with_its_error() {
    let cases: Vec<(Request, WindowsOperation)> = vec![
        (Request::ReadMemory { address: HOOK, len: 1 }, WindowsOperation::ReadOriginalByte),
        (Request::WriteMemory { address: HOOK, byte: TRAP_OPCODE }, WindowsOperation::WriteBreakpoint),
        (Request::FlushInstructionCache { address: HOOK, len: 1 }, WindowsOperation::FlushInstructionCache),
        (Request::WriteMemory { address: HOOK, byte: 0x55 }, WindowsOperation::WriteRemoteMemory),
        (Request::OpenThread { thread_id: 10 }, WindowsOperation::OpenThread),
        (Request::GetThreadContext, WindowsOperation::GetThreadContext),
        (Request::SetThreadContext { rip: HOOK, eflags: 0x346 }, WindowsOperation::SetThreadContext),
        (Request::SetThreadContext { rip: HOOK + 1, eflags: 0x246 }, WindowsOperation::SetThreadContext),
        (
            Request::ContinueDebugEvent { process_id: PID, thread_id: 10, status: ContinueStatus::Continue },
            WindowsOperation::ContinueDebugEvent,
        ),
        (Request::TerminateProcess, WindowsOperation::TerminateProcess),
    ];
    for (request, operation) in cases {
        let mut program = loaded();
        program.call(10, 0x6000, b"nt_msg.db");
        program.call(99, 0x5000, b"0123456789abcdef");
        program.fail = Some(request);
        // the single step of the bypass leaves the registers as the step found them
        let mut session = session();
        let mut current = session.request();
        let mut failed = false;
        while current != Request::Finish {
            let reply = if current == request && !failed {
                failed = true;
                program.log.push(current);
                Reply::Failed { code: -5 }
            } else {
                program.fail = None;
                if let Request::GetThreadContext = current {
                    if let Some(thread) = program.open_thread {
                        if program.registers[&thread].rip == HOOK {
                            let r8 = program.registers[&thread].r8;
                            program.registers.insert(thread, ThreadContext { rip: HOOK + 1, r8, eflags: 0x346 });
                        }
                    }
                }
                program.perform(current)
            };
            current = session.step(reply);
        }
        assert!(failed, "{:?} was never asked for", request);
        match session.outcome() {
            Some(Err(Error::WindowsOp { op, code, address })) => {
                assert_eq!(op, operation);
                assert_eq!(code, -5);
                let about = match request {
                    Request::ReadMemory { address, .. } => Some(address),
                    Request::WriteMemory { address, .. } => Some(address),
                    Request::FlushInstructionCache { address, .. } => Some(address),
                    _ => None,
                };
                assert_eq!(address, about, "{:?}", request);
            },
            Some(Err(e)) => panic!("{:?}: {}", request, e.message()),
            _ => panic!("{:?}: no error", request),
        }
        assert_eq!(program.threads_opened, program.threads_closed, "{:?}", request);
        assert_eq!(program.processes_closed, 1, "{:?}", request);
        assert!(program.terminated >= 1 || request == Request::TerminateProcess, "{:?}", request);
        // the byte of the program is back, unless taking it out is what failed
        if operation != WindowsOperation::WriteRemoteMemory {
            assert_eq!(program.memory[&HOOK], 0x55, "{:?}", request);
        }
    }
}

#[test]
fn short_writes_fail_the_session() {
    // the trap instruction is not written
    let mut program = loaded();
    let mut session = session();
    let mut request = session.request();
    while request != (Request::WriteMemory { address: HOOK, byte: TRAP_OPCODE }) {
        let reply = program.perform(request);
        request = session.step(reply);
    }
    assert_eq!(session.step(Reply::Written { count: 0 }), Request::TerminateProcess);
    session.step(Reply::Done);
    assert_eq!(session.step(Reply::Done), Request::Finish);
    assert!(matches!(
        session.outcome(),
        Some(Err(Error::DebugForKey { reason: DebugFailure::WriteBreakpoint, address: Some(HOOK) }))
    ));
    assert_eq!(
        session.breakpoint(),
        Some(SoftwareBreakpoint { address: HOOK, original_byte: 0x55, is_active: false })
    );
    // the byte of the program is not written back at a hit
    let mut program = loaded();
    program.call(10, 0x6000, b"nt_msg.db");
    let mut session = self::session();
    let mut request = session.request();
    while request != (Request::WriteMemory { address: HOOK, byte: 0x55 }) {
        let reply = program.perform(request);
        request = session.step(reply);
    }
    // the trap instruction is still in place, so taking it out is tried once more
    assert_eq!(
        session.step(Reply::Written { count: 2 }),
        Request::WriteMemory { address: HOOK, byte: 0x55 }
    );
    assert_eq!(session.step(Reply::Written { count: 1 }), Request::TerminateProcess);
    session.step(Reply::Done);
    assert_eq!(session.step(Reply::Done), Request::Finish);
    assert!(matches!(
        session.outcome(),
        Some(Err(Error::DebugForKey { reason: DebugFailure::WriteRemoteMemory, address: Some(HOOK) }))
    ));
    assert_eq!(
        session.breakpoint(),
        Some(SoftwareBreakpoint { address: HOOK, original_byte: 0x55, is_active: false })
    );
}

#[test]
fn wrong_reply_fails_the_session() {
    let mut session = session();
    assert_eq!(session.step(Reply::Done), Request::Finish);
    assert!(matches!(
        session.outcome(),
        Some(Err(Error::DebugForKey { reason: DebugFailure::UnexpectedReply, address: None }))
    ));
    let mut program = loaded();
    let mut session = self::session();
    let mut request = session.request();
    while request != (Request::WriteMemory { address: HOOK, byte: TRAP_OPCODE }) {
        let reply = program.perform(request);
        request = session.step(reply);
    }
    assert_eq!(session.step(Reply::Timeout), Request::TerminateProcess);
    assert_eq!(session.step(Reply::Done), Request::CloseProcess);
    assert_eq!(session.step(Reply::Done), Request::Finish);
}

#[test]
fn invalid_thread_handle_fails_the_session() {
    let mut program = loaded();
    program.call(10, 0x6000, b"nt_msg.db");
    let mut session = session();
    let mut request = session.request();
    while request != (Request::OpenThread { thread_id: 10 }) {
        let reply = program.perform(request);
        request = session.step(reply);
    }
    // the breakpoint is out at this point, so there is nothing to take out
    assert_eq!(session.step(Reply::Thread { handle_valid: false }), Request::TerminateProcess);
    assert_eq!(session.step(Reply::Failed { code: 5 }), Request::CloseProcess);
    assert_eq!(session.step(Reply::Failed { code: 6 }), Request::Finish);
    assert!(matches!(
        session.outcome(),
        Some(Err(Error::DebugForKey { reason: DebugFailure::InvalidThreadHandle, address: None }))
    ));
}

#[test]
fn module_is_found_by_name_without_regard_to_case() {
    let modules = vec![
        Module { name: b"ntdll.dll".to_vec(), base: 0x10 },
        Module { name: b"Wrapper.Node".to_vec(), base: 0x20 },
        Module { name: b"wrapper.node".to_vec(), base: 0x30 },
    ];
    assert_eq!(get_module_base(&modules, b"wrapper.node"), Some(0x20));
    assert_eq!(get_module_base(&modules, b"NTDLL.DLL"), Some(0x10));
    assert_eq!(get_module_base(&modules, b"wrapper.nod"), None);
    assert_eq!(get_module_base(&Vec::new(), b"wrapper.node"), None);
    assert!(eq_ignore_ascii_case(b"aZ09.@[`{", b"Az09.@[`{"));
    assert!(!eq_ignore_ascii_case(b"@", b"`"));
    assert!(!eq_ignore_ascii_case(b"[", b"{"));
    assert!(!eq_ignore_ascii_case(b"abc", b"abcd"));
}

#[test]
fn errors_are_written_out_in_words() {
    assert_eq!(Error::QQInstallationNotFound.message(), "installed QQ not found");
    assert_eq!(
        Error::DebugForKey { reason: DebugFailure::KeyNotFound, address: None }.message(),
        "debug for key: failed to find encryption key"
    );
    assert_eq!(
        Error::DebugForKey { reason: DebugFailure::WriteBreakpoint, address: Some(HOOK) }.message(),
        "debug for key: write breakpoint at 0x00007ff610001030"
    );
    assert_eq!(
        Error::WindowsOp { op: WindowsOperation::OpenThread, code: -2147024891, address: None }.message(),
        "Windows error when open thread: 0x80070005"
    );
    assert_eq!(
        Error::WindowsOp { op: WindowsOperation::WriteRemoteMemory, code: 0x1a2b, address: Some(u64::MAX) }
            .message(),
        "Windows error when write remote memory: 0x00001a2b at 0xffffffffffffffff"
    );
    assert_eq!(
        Error::Io { op: "open wrapper.node file".to_string(), message: "denied".to_string() }.message(),
        "IO error when open wrapper.node file: denied"
    );
    assert_eq!(
        Error::UnsupportedArchitecture { arch: ProcessorArchitecture::Arm64 }.message(),
        "unsupported architecture: aarch64"
    );
    assert_eq!(Error::LocateDocumentsDir.message(), "no Documents dir located");
    assert_eq!(Error::NoTencentFilesDir.message(), "no Tencent Files dir located in Documents");
    assert_eq!(Error::Object { message: "Invalid DOS magic".to_string() }.message(), "Invalid DOS magic");
    assert_eq!(Error::Capstone { message: "Out of memory".to_string() }.message(), "Out of memory");
}
