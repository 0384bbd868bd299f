//! Tests against a live tracee: a spawned busy process is attached, stepped,
//! patched and inspected through the real kernel calls.

use drbug::{DrbugError, Process, ProcessState, RegisterId, RegisterValue};
use drbug::reg_catalog::register_info_by_id;
use nix::fcntl::OFlag;
use nix::spawn::{posix_spawnp, PosixSpawnAttr, PosixSpawnFileActions};
use nix::sys::signal::{kill, Signal};
use nix::sys::stat::Mode;
use nix::sys::wait::waitpid;
use nix::unistd::Pid;

/// Spawn a process that always has instructions to execute: `yes`, its
/// output discarded.
fn spawn_busy() -> i32 {
    let attr = PosixSpawnAttr::init().unwrap();
    let mut actions = PosixSpawnFileActions::init().unwrap();
    actions
        .add_open(1, c"/dev/null", OFlag::O_WRONLY, Mode::empty())
        .unwrap();
    let pid = posix_spawnp(c"yes", &actions, &attr, &[c"yes"], &[c""; 0]).unwrap();
    pid.as_raw()
}

/// Kill and reap the spawned process, whatever state the test left it in.
fn reap(pid: i32) {
    let p = Pid::from_raw(pid);
    let _ = kill(p, Signal::SIGKILL);
    let _ = waitpid(p, None);
}

#[test]
fn attach_stops_the_tracee_and_resume_runs_it() {
    let pid = spawn_busy();
    let mut proc = Process::attach(pid).unwrap();
    assert_eq!(proc.pid(), pid);
    assert!(proc.state().is_stopped());

    proc.resume().unwrap();
    assert!(proc.state().is_running());

    // a killed tracee reports the terminating signal on the next wait
    kill(Pid::from_raw(pid), Signal::SIGKILL).unwrap();
    let state = proc.wait_on_signal().unwrap();
    assert_eq!(state, ProcessState::Terminated { signal: 9 });
    reap(pid);
}

#[test]
fn step_reports_a_trap_stop() {
    let pid = spawn_busy();
    let mut proc = Process::attach(pid).unwrap();
    // the first step can still report the stop signal pending from the
    // attach; a trap stop arrives within a few steps
    let mut saw_trap = false;
    for _ in 0..4 {
        let state = proc.step_instruction().unwrap();
        assert!(state.is_stopped());
        // SIGTRAP is signal 5
        if state == (ProcessState::Stopped { signal: Some(5) }) {
            saw_trap = true;
            break;
        }
    }
    assert!(saw_trap);
    reap(pid);
}

#[test]
fn register_write_survives_the_kernel_round_trip() {
    let pid = spawn_busy();
    let mut proc = Process::attach(pid).unwrap();

    // a general-purpose register, committed one user-area word at a time
    let rsi = register_info_by_id(&RegisterId::rsi);
    proc.get_registers_mut()
        .write(&rsi, &RegisterValue::U64(0xcafecafe))
        .unwrap();
    // stepping waits and refills the whole cache from the kernel
    proc.step_instruction().unwrap();
    assert_eq!(
        proc.get_registers().read(&rsi).unwrap(),
        RegisterValue::U64(0xcafecafe)
    );

    // an MMX alias, committed through the whole floating-point block
    let mm0 = register_info_by_id(&RegisterId::mm0);
    proc.get_registers_mut()
        .write(&mm0, &RegisterValue::U64(0xba5eba11))
        .unwrap();
    proc.step_instruction().unwrap();
    assert_eq!(
        proc.get_registers().read(&mm0).unwrap(),
        RegisterValue::U64(0xba5eba11)
    );

    // an XMM vector holding a double's bits
    let xmm0 = register_info_by_id(&RegisterId::xmm0);
    let bits = 42.24f64.to_bits();
    proc.get_registers_mut()
        .write(&xmm0, &RegisterValue::F64(bits))
        .unwrap();
    proc.step_instruction().unwrap();
    assert_eq!(
        proc.get_registers().read(&xmm0).unwrap(),
        RegisterValue::F64(bits)
    );
    reap(pid);
}

#[test]
fn breakpoint_toggle_leaves_memory_as_it_was() {
    let pid = spawn_busy();
    let mut proc = Process::attach(pid).unwrap();
    let pc = proc.get_pc().unwrap();

    let before = proc.read_memory(pc, 8).unwrap();

    let site = proc.create_breakpoint_site(pc).unwrap();
    proc.enable_breakpoint(site.id).unwrap();

    // while enabled: INT3 in the low byte, everything else untouched
    let patched = proc.read_memory(pc, 8).unwrap();
    assert_eq!(patched[0], 0xcc);
    assert_eq!(patched[1..], before[1..]);

    // the breakpoint-hiding read shows the original bytes
    let hidden = proc.read_memory_without_traps(pc, 8).unwrap();
    assert_eq!(hidden, before);

    // a second site at the same address names the existing one
    match proc.create_breakpoint_site(pc) {
        Err(DrbugError::BreakpointSiteExists(id, addr)) => {
            assert_eq!(id, site.id);
            assert_eq!(addr, pc);
        },
        other => panic!("expected BreakpointSiteExists, got {other:?}", other = other.map(|s| s.id)),
    }

    // disabling restores the displaced byte exactly
    proc.disable_breakpoint(site.id).unwrap();
    assert_eq!(proc.read_memory(pc, 8).unwrap(), before);

    // removing an unknown id or address is a no-op that cannot fail
    proc.remove_breakpoint_by_id(site.id + 100).unwrap();
    proc.remove_breakpoint_by_addr(drbug::VirtAddr(1)).unwrap();
    assert_eq!(proc.breakpoint_sites().len(), 1);

    // removing a disabled site only drops the bookkeeping
    proc.remove_breakpoint_by_id(site.id).unwrap();
    assert!(proc.breakpoint_sites().is_empty());
    assert_eq!(proc.read_memory(pc, 8).unwrap(), before);
    reap(pid);
}

#[test]
fn resuming_over_an_enabled_breakpoint_traps() {
    let pid = spawn_busy();
    let mut proc = Process::attach(pid).unwrap();
    let pc = proc.get_pc().unwrap();

    let site = proc.create_breakpoint_site(pc).unwrap();
    proc.enable_breakpoint(site.id).unwrap();
    // the stop signal queued by the attach may surface first; the trap
    // follows on the next resume
    let mut state = ProcessState::Running;
    for _ in 0..4 {
        proc.resume().unwrap();
        state = proc.wait_on_signal().unwrap();
        if state == (ProcessState::Stopped { signal: Some(5) }) {
            break;
        }
    }
    // SIGTRAP is signal 5; after the one-byte INT3 executes, the program
    // counter stands one past the site
    assert_eq!(state, ProcessState::Stopped { signal: Some(5) });
    assert_eq!(proc.get_pc().unwrap(), pc.add(1));
    reap(pid);
}

#[test]
fn memory_write_with_a_partial_word_preserves_neighbours() {
    let pid = spawn_busy();
    let mut proc = Process::attach(pid).unwrap();
    let pc = proc.get_pc().unwrap();

    let before = proc.read_memory(pc, 16).unwrap();

    // eleven bytes: one full word and a three-byte tail that must merge
    let data: Vec<u8> = b"Hello, drb!".to_vec();
    proc.write_memory(pc, &data).unwrap();

    let after = proc.read_memory(pc, 16).unwrap();
    assert_eq!(&after[..11], b"Hello, drb!");
    assert_eq!(after[11..], before[11..]);
    reap(pid);
}

#[test]
fn shutdown_restores_bytes_and_empties_the_store() {
    let pid = spawn_busy();
    let mut proc = Process::attach(pid).unwrap();
    let pc = proc.get_pc().unwrap();
    let before = proc.read_memory(pc, 8).unwrap();

    let site = proc.create_breakpoint_site(pc).unwrap();
    proc.enable_breakpoint(site.id).unwrap();
    proc.shutdown();
    assert_eq!(proc.breakpoint_sites().len(), 0);

    // the tracee runs detached; attach again to look at its memory
    let proc2 = Process::attach(pid).unwrap();
    assert_eq!(proc2.read_memory(pc, 8).unwrap(), before);
    reap(pid);
}
