//! The trusted kernel-call layer: one wrapper per outside function.
//!
//! Every wrapper converts between plain values and the nix crate's types
//! around a single kernel call — but for the floating-point writer, which
//! first reads the current block as a template for the padding it cannot
//! construct. Results that depend on the tracee or the machine carry no
//! promise beyond their shape; the verified layers state what holds of every
//! outcome.

use nix::sys::ptrace;
use nix::sys::ptrace::regset::NT_PRFPREG;
use nix::sys::signal::Signal;
use nix::sys::uio::RemoteIoVec;
use nix::sys::wait::WaitStatus;
use nix::unistd::Pid;
use vstd::prelude::*;

use crate::registers::FpRegs;
use crate::state::{SignalKind, WaitOutcome};

verus! {

/// Relies on nix's ptrace::attach (PTRACE_ATTACH): makes the process with
/// this pid a tracee of the caller.
#[verifier::external_body]
pub(crate) fn ptrace_attach(pid: i32) -> (r: Result<(), i32>) {
    ptrace::attach(Pid::from_raw(pid)).map_err(|e| e as i32)
}

/// Relies on nix's ptrace::detach (PTRACE_DETACH) with no pending signal.
#[verifier::external_body]
pub(crate) fn ptrace_detach(pid: i32) -> (r: Result<(), i32>) {
    ptrace::detach(Pid::from_raw(pid), None).map_err(|e| e as i32)
}

/// Relies on nix's ptrace::cont (PTRACE_CONT) with no pending signal.
#[verifier::external_body]
pub(crate) fn ptrace_cont(pid: i32) -> (r: Result<(), i32>) {
    ptrace::cont(Pid::from_raw(pid), None).map_err(|e| e as i32)
}

/// Relies on nix's ptrace::step (PTRACE_SINGLESTEP) with no pending signal.
#[verifier::external_body]
pub(crate) fn ptrace_step(pid: i32) -> (r: Result<(), i32>) {
    ptrace::step(Pid::from_raw(pid), None).map_err(|e| e as i32)
}

/// Relies on nix's ptrace::read (PTRACE_PEEKDATA): one word of tracee memory.
/// Nothing is promised of the value; it is whatever the tracee holds.
#[verifier::external_body]
pub(crate) fn ptrace_peek(pid: i32, addr: u64) -> (r: Result<u64, i32>) {
    match ptrace::read(Pid::from_raw(pid), addr as usize as ptrace::AddressType) {
        Ok(w) => Ok(w as u64),
        Err(e) => Err(e as i32),
    }
}

/// Relies on nix's ptrace::write (PTRACE_POKEDATA): writes one word into
/// tracee memory.
#[verifier::external_body]
pub(crate) fn ptrace_poke(pid: i32, addr: u64, word: u64) -> (r: Result<(), i32>) {
    ptrace::write(Pid::from_raw(pid), addr as usize as ptrace::AddressType, word as i64)
        .map_err(|e| e as i32)
}

/// Relies on nix's ptrace::read_user (PTRACE_PEEKUSER): one word of the
/// tracee's user-area record at the given byte offset.
#[verifier::external_body]
pub(crate) fn ptrace_peek_user(pid: i32, offset: u64) -> (r: Result<u64, i32>) {
    match ptrace::read_user(Pid::from_raw(pid), offset as usize as ptrace::AddressType) {
        Ok(w) => Ok(w as u64),
        Err(e) => Err(e as i32),
    }
}

/// Relies on nix's ptrace::write_user (PTRACE_POKEUSER): writes one word of
/// the tracee's user-area record at the given byte offset.
#[verifier::external_body]
pub(crate) fn ptrace_poke_user(pid: i32, offset: u64, word: u64) -> (r: Result<(), i32>) {
    ptrace::write_user(Pid::from_raw(pid), offset as usize as ptrace::AddressType, word as i64)
        .map_err(|e| e as i32)
}

/// Relies on nix's ptrace::getregs (PTRACE_GETREGS): the tracee's
/// general-purpose block, returned as the 27 record words in the kernel's
/// field order (r15 first, gs last). The values are the tracee's; nothing
/// more is promised of them.
#[verifier::external_body]
pub(crate) fn ptrace_getregs_words(pid: i32) -> (r: Result<Vec<u64>, i32>)
    ensures
        r is Ok ==> r->Ok_0@.len() == 27,
{
    let g = match ptrace::getregs(Pid::from_raw(pid)) {
        Ok(g) => g,
        Err(e) => return Err(e as i32),
    };
    Ok(vec![
        g.r15, g.r14, g.r13, g.r12, g.rbp, g.rbx, g.r11, g.r10, g.r9, g.r8, g.rax, g.rcx,
        g.rdx, g.rsi, g.rdi, g.orig_rax, g.rip, g.cs, g.eflags, g.rsp, g.ss, g.fs_base,
        g.gs_base, g.ds, g.es, g.fs, g.gs,
    ])
}

/// Relies on nix's ptrace::getregset with NT_PRFPREG (PTRACE_GETREGSET): the
/// tracee's floating-point block, field for field. The values are the
/// tracee's; only the array lengths are promised.
#[verifier::external_body]
pub(crate) fn ptrace_getfpregs(pid: i32) -> (r: Result<FpRegs, i32>)
    ensures
        r is Ok ==> r->Ok_0.wf(),
{
    let f = match ptrace::getregset::<NT_PRFPREG>(Pid::from_raw(pid)) {
        Ok(f) => f,
        Err(e) => return Err(e as i32),
    };
    Ok(FpRegs {
        cwd: f.cwd, swd: f.swd, ftw: f.ftw, fop: f.fop, rip: f.rip, rdp: f.rdp,
        mxcsr: f.mxcsr, mxcr_mask: f.mxcr_mask,
        st_space: f.st_space.to_vec(), xmm_space: f.xmm_space.to_vec(),
    })
}

/// Relies on nix's ptrace::setregset with NT_PRFPREG (PTRACE_SETREGSET):
/// writes the whole floating-point block. A read of the current block serves
/// as the template whose fields are replaced.
#[verifier::external_body]
pub(crate) fn ptrace_setfpregs(pid: i32, f: &FpRegs) -> (r: Result<(), i32>)
    requires
        f.wf(),
{
    let p = Pid::from_raw(pid);
    let mut t = match ptrace::getregset::<NT_PRFPREG>(p) {
        Ok(t) => t,
        Err(e) => return Err(e as i32),
    };
    t.cwd = f.cwd; t.swd = f.swd; t.ftw = f.ftw; t.fop = f.fop; t.rip = f.rip; t.rdp = f.rdp;
    t.mxcsr = f.mxcsr; t.mxcr_mask = f.mxcr_mask;
    t.st_space = f.st_space.clone().try_into().unwrap();
    t.xmm_space = f.xmm_space.clone().try_into().unwrap();
    ptrace::setregset::<NT_PRFPREG>(p, t).map_err(|e| e as i32)
}

/// Relies on nix's waitpid: blocks until the tracee changes state, then
/// reports the outcome, one arm per nix wait-status variant, signals as raw
/// numbers. Which outcome comes back depends on the tracee alone.
#[verifier::external_body]
pub(crate) fn wait_for(pid: i32) -> (r: Result<WaitOutcome, i32>) {
    match nix::sys::wait::waitpid(Pid::from_raw(pid), None) {
        Ok(WaitStatus::Exited(_, code)) => Ok(WaitOutcome::Exited(code)),
        Ok(WaitStatus::Signaled(_, sig, core)) => Ok(WaitOutcome::Signaled(sig as i32, core)),
        Ok(WaitStatus::Stopped(_, sig)) => Ok(WaitOutcome::Stopped(sig as i32)),
        Ok(WaitStatus::PtraceEvent(_, sig, ev)) => Ok(WaitOutcome::PtraceEvent(sig as i32, ev)),
        Ok(WaitStatus::PtraceSyscall(_)) => Ok(WaitOutcome::PtraceSyscall),
        Ok(WaitStatus::Continued(_)) => Ok(WaitOutcome::Continued),
        Ok(WaitStatus::StillAlive) => Ok(WaitOutcome::StillAlive),
        Err(e) => Err(e as i32),
    }
}

/// Relies on nix's kill: sends the tracee a stop, continue or kill signal.
#[verifier::external_body]
pub(crate) fn send_signal(pid: i32, sig: SignalKind) -> (r: Result<(), i32>) {
    let s = match sig {
        SignalKind::Stop => Signal::SIGSTOP,
        SignalKind::Cont => Signal::SIGCONT,
        SignalKind::Kill => Signal::SIGKILL,
    };
    nix::sys::signal::kill(Pid::from_raw(pid), s).map_err(|e| e as i32)
}

/// Relies on nix's process_vm_readv: scatter/gather read of tracee memory
/// into one local buffer of `size` bytes, one remote segment per chunk. The
/// buffer's contents are the tracee's; promised is only the buffer's length.
/// The count of bytes the kernel reported transferring is handed back beside
/// the buffer, for the caller to judge: a partial transfer leaves the tail
/// unfilled.
#[verifier::external_body]
pub(crate) fn vm_read_chunks(pid: i32, chunks: &Vec<(u64, usize)>, size: usize) -> (r: Result<
    (Vec<u8>, usize),
    i32,
>)
    ensures
        r is Ok ==> r->Ok_0.0@.len() == size,
{
    let mut buf = vec![0u8; size];
    let mut local = [std::io::IoSliceMut::new(&mut buf)];
    let remote: Vec<RemoteIoVec> = chunks
        .iter()
        .map(|c| RemoteIoVec { base: c.0 as usize, len: c.1 })
        .collect();
    match nix::sys::uio::process_vm_readv(Pid::from_raw(pid), &mut local, &remote) {
        Ok(n) => Ok((buf, n)),
        Err(e) => Err(e as i32),
    }
}

/// Relies on String::push: appends exactly one character.
#[verifier::external_body]
pub(crate) fn string_push(s: &mut String, c: char)
    ensures
        final(s)@ == old(s)@.push(c),
{
    s.push(c);
}

/// The character sequence std's lossy UTF-8 decoding gives these bytes.
pub uninterp spec fn lossy_utf8(bytes: Seq<u8>) -> Seq<char>;

/// Relies on String::from_utf8_lossy: decodes the bytes, replacing invalid
/// sequences; the result depends on the bytes alone.
#[verifier::external_body]
pub(crate) fn lossy_string(bytes: &Vec<u8>) -> (r: String)
    ensures
        r@ == lossy_utf8(bytes@),
{
    String::from_utf8_lossy(bytes).into_owned()
}

} // verus!
