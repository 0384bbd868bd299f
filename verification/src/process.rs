//! The process controller: one tracee under ptrace — lifecycle, memory I/O,
//! register delegation and breakpoint operations.

use vstd::prelude::*;

use crate::address::VirtAddr;
use crate::breakpoints::{
    BreakpointSite, BreakpointStore, enable_patch, disable_patch, has_addr, has_id, idx_of_addr,
    idx_of_id,
};
use crate::error::{DrbugError, DrbugResult, Empty};
use crate::memio::{hide_traps, merge_tail_word, overlay_spec, page_chunks};
use crate::registers::Registers;
use crate::state::{ProcessState, SignalKind, WaitOutcome, state_of_wait};
use crate::syscalls;

verus! {

broadcast use vstd::std_specs::vec::group_vec_axioms;

/// A tracee and everything the debugger owns for it: its pid, how it came
/// under tracing, its lifecycle state, the register cache and the breakpoint
/// store.
pub struct Process {
    pid: i32,
    attached: bool,
    terminate_on_end: bool,
    state: ProcessState,
    registers: Registers,
    breakpoints: BreakpointStore,
}

impl Process {
    /// The tracee's process id.
    pub closed spec fn spec_pid(self) -> i32 {
        self.pid
    }

    /// Whether the tracee is under tracing.
    pub closed spec fn spec_attached(self) -> bool {
        self.attached
    }

    /// Whether the tracee is killed when the controller shuts down.
    pub closed spec fn spec_terminate_on_end(self) -> bool {
        self.terminate_on_end
    }

    /// The tracked lifecycle state.
    pub closed spec fn spec_state(self) -> ProcessState {
        self.state
    }

    /// The register cache.
    pub closed spec fn regs(self) -> Registers {
        self.registers
    }

    /// The breakpoint store.
    pub closed spec fn bps(self) -> BreakpointStore {
        self.breakpoints
    }

    /// The controller's invariant: cache and store are well-formed and the
    /// cache belongs to this tracee.
    pub open spec fn wf(self) -> bool {
        &&& self.regs().wf()
        &&& self.regs().spec_pid() == self.spec_pid()
        &&& self.bps().wf()
    }

    /// A fresh controller for a tracee assumed stopped; waits once when
    /// attached, reloading the register cache.
    fn new_then_wait(pid: i32, attached: bool, terminate_on_end: bool) -> (r: DrbugResult<Process>)
        ensures
            r is Ok ==> {
                let p = r->Ok_0;
                &&& p.wf()
                &&& p.spec_pid() == pid
                &&& p.spec_attached() == attached
                &&& p.spec_terminate_on_end() == terminate_on_end
                &&& p.bps().sites_seq().len() == 0
                &&& p.bps().spec_next_id() == 1
                &&& p.bps().issued_ids().len() == 0
                &&& (!attached ==> p.spec_state() == (ProcessState::Stopped {
                    signal: None::<i32>,
                }))
            },
            !attached ==> r is Ok,
            r is Err ==> r->Err_0 is SyscallFailed,
    {
        let mut proc = Process {
            pid,
            attached,
            terminate_on_end,
            state: ProcessState::Stopped { signal: None },
            registers: Registers::new(pid),
            breakpoints: BreakpointStore::new(),
        };
        if attached {
            match proc.wait_on_signal() {
                Ok(_) => {},
                Err(e) => {
                    return Err(e);
                },
            }
        }
        Ok(proc)
    }

    /// Attach to a running process and perform the initial wait. The tracee
    /// is not killed when the controller shuts down.
    pub fn attach(pid: i32) -> (r: DrbugResult<Process>)
        ensures
            r is Ok ==> {
                let p = r->Ok_0;
                &&& p.wf()
                &&& p.spec_pid() == pid
                &&& p.spec_attached()
                &&& !p.spec_terminate_on_end()
                &&& p.bps().sites_seq().len() == 0
                &&& p.bps().spec_next_id() == 1
            },
            r is Err ==> r->Err_0 is SyscallFailed,
    {
        match syscalls::ptrace_attach(pid) {
            Ok(_) => {},
            Err(e) => {
                return Err(DrbugError::SyscallFailed("attach", e));
            },
        }
        Self::new_then_wait(pid, true, false)
    }

    /// Finish a launch on the parent's side, after the fork: `report` is what
    /// the error channel carried. Any bytes mean the child failed before its
    /// exec; the child is reaped and its diagnostic reported. No bytes mean
    /// the exec happened, and the controller is built around the child, which
    /// is killed when the controller shuts down.
    pub fn complete_launch(child: i32, report: Vec<u8>, start_unattached: bool) -> (r: DrbugResult<
        Process,
    >)
        ensures
            report@.len() > 0 ==> r is Err && ((r->Err_0 matches DrbugError::ChildProcessFailed(m)
                && m@ == syscalls::lossy_utf8(report@)) || r->Err_0 is SyscallFailed),
            report@.len() == 0 && r is Ok ==> {
                let p = r->Ok_0;
                &&& p.wf()
                &&& p.spec_pid() == child
                &&& p.spec_attached() == !start_unattached
                &&& p.spec_terminate_on_end()
                &&& p.bps().sites_seq().len() == 0
                &&& p.bps().spec_next_id() == 1
            },
            report@.len() == 0 && start_unattached ==> r is Ok,
            report@.len() == 0 && r is Err ==> r->Err_0 is SyscallFailed,
    {
        if report.len() > 0 {
            match syscalls::wait_for(child) {
                Ok(_) => {},
                Err(e) => {
                    return Err(DrbugError::SyscallFailed("waitpid", e));
                },
            }
            return Err(DrbugError::ChildProcessFailed(syscalls::lossy_string(&report)));
        }
        Self::new_then_wait(child, !start_unattached, true)
    }

    /// The tracee's process id.
    pub fn pid(&self) -> (r: i32)
        ensures
            r == self.spec_pid(),
    {
        self.pid
    }

    /// The tracked lifecycle state.
    pub fn state(&self) -> (r: ProcessState)
        ensures
            r == self.spec_state(),
    {
        self.state
    }

    /// The register cache.
    pub fn get_registers(&self) -> (r: &Registers)
        ensures
            *r == self.regs(),
    {
        &self.registers
    }

    /// Mutable access to the register cache.
    pub fn get_registers_mut(&mut self) -> (r: &mut Registers)
        ensures
            *r == old(self).regs(),
            final(self).regs() == *final(r),
            final(self).spec_pid() == old(self).spec_pid(),
            final(self).spec_attached() == old(self).spec_attached(),
            final(self).spec_terminate_on_end() == old(self).spec_terminate_on_end(),
            final(self).spec_state() == old(self).spec_state(),
            final(self).bps() == old(self).bps(),
    {
        &mut self.registers
    }

    /// The breakpoint store.
    pub fn breakpoint_sites(&self) -> (r: &BreakpointStore)
        ensures
            *r == self.bps(),
    {
        &self.breakpoints
    }

    /// Mutable access to the breakpoint store.
    pub fn breakpoint_sites_mut(&mut self) -> (r: &mut BreakpointStore)
        ensures
            *r == old(self).bps(),
            final(self).bps() == *final(r),
            final(self).spec_pid() == old(self).spec_pid(),
            final(self).spec_attached() == old(self).spec_attached(),
            final(self).spec_terminate_on_end() == old(self).spec_terminate_on_end(),
            final(self).spec_state() == old(self).spec_state(),
            final(self).regs() == old(self).regs(),
    {
        &mut self.breakpoints
    }

    /// Resume the tracee with no pending signal; on success the state becomes
    /// `Running`. Fails when the kernel rejects the request, leaving the
    /// state as it was.
    pub fn resume(&mut self) -> (r: Empty)
        requires
            old(self).wf(),
        ensures
            final(self).wf(),
            r is Ok ==> final(self).spec_state() == ProcessState::Running && final(self).spec_pid() == old(self).spec_pid() && final(self).spec_attached() == old(self).spec_attached() && final(self).spec_terminate_on_end() == old(self).spec_terminate_on_end() && final(self).regs() == old(self).regs() && final(self).bps() == old(self).bps(),
            r is Err ==> *final(self) == *old(self) && r->Err_0 is SyscallFailed,
    {
        match syscalls::ptrace_cont(self.pid) {
            Ok(_) => {},
            Err(e) => {
                return Err(DrbugError::SyscallFailed("cont", e));
            },
        }
        self.state = ProcessState::Running;
        Ok(())
    }

    /// Block until the tracee changes state, record the new state, and — when
    /// attached and stopped — reload the register cache from the kernel.
    pub fn wait_on_signal(&mut self) -> (r: DrbugResult<ProcessState>)
        requires
            old(self).wf(),
        ensures
            final(self).wf(),
            final(self).spec_pid() == old(self).spec_pid(),
            final(self).spec_attached() == old(self).spec_attached(),
            final(self).spec_terminate_on_end() == old(self).spec_terminate_on_end(),
            final(self).bps() == old(self).bps(),
            r is Ok ==> r->Ok_0 == final(self).spec_state() && exists|w: WaitOutcome|
                final(self).spec_state() == state_of_wait(w),
            r is Err ==> r->Err_0 is SyscallFailed,
    {
        let outcome = match syscalls::wait_for(self.pid) {
            Ok(o) => o,
            Err(e) => {
                return Err(DrbugError::SyscallFailed("waitpid", e));
            },
        };
        self.state = ProcessState::from_wait(outcome);
        if self.attached && self.state.is_stopped() {
            match self.registers.load_all() {
                Ok(_) => {},
                Err(e) => {
                    return Err(e);
                },
            }
        }
        Ok(self.state)
    }

    /// Single-step the tracee by one instruction, wait, and report the
    /// resulting state.
    pub fn step_instruction(&mut self) -> (r: DrbugResult<ProcessState>)
        requires
            old(self).wf(),
        ensures
            final(self).wf(),
            final(self).spec_pid() == old(self).spec_pid(),
            final(self).spec_attached() == old(self).spec_attached(),
            final(self).spec_terminate_on_end() == old(self).spec_terminate_on_end(),
            final(self).bps() == old(self).bps(),
            r is Ok ==> r->Ok_0 == final(self).spec_state() && exists|w: WaitOutcome|
                final(self).spec_state() == state_of_wait(w),
            r is Err ==> r->Err_0 is SyscallFailed,
    {
        match syscalls::ptrace_step(self.pid) {
            Ok(_) => {},
            Err(e) => {
                return Err(DrbugError::SyscallFailed("step", e));
            },
        }
        self.wait_on_signal()
    }

    /// The program counter, as cached at the last stop.
    pub fn get_pc(&self) -> (r: DrbugResult<VirtAddr>)
        requires
            self.wf(),
        ensures
            r == Ok::<VirtAddr, DrbugError>(
                VirtAddr(
                    vstd::bytes::spec_u64_from_le_bytes(self.regs().cache().subrange(128, 136)),
                ),
            ),
    {
        let info = crate::reg_catalog::register_info_by_id(&crate::reg_catalog::RegisterId::rip);
        match self.registers.read(&info) {
            Ok(crate::reg_value::RegisterValue::U64(v)) => Ok(VirtAddr(v)),
            _ => {
                proof {
                    assert(false);
                }
                Err(DrbugError::InvalidRegisterSize(8))
            },
        }
    }

    /// Read `size` bytes of tracee memory at `addr`, split at page boundaries
    /// so no kernel read straddles a page. Success means the kernel
    /// transferred exactly `size` bytes; a partial transfer is an error.
    pub fn read_memory(&self, addr: VirtAddr, size: usize) -> (r: DrbugResult<Vec<u8>>)
        requires
            self.wf(),
            addr.0 + size <= u64::MAX,
        ensures
            r is Ok ==> r->Ok_0@.len() == size,
            r is Err ==> r->Err_0 is SyscallFailed || r->Err_0 is Io,
    {
        let chunks = page_chunks(addr, size);
        match syscalls::vm_read_chunks(self.pid, &chunks, size) {
            Ok((buf, transferred)) => {
                if transferred == size {
                    Ok(buf)
                } else {
                    Err(DrbugError::Io("partial read of tracee memory".to_owned()))
                }
            },
            Err(e) => Err(DrbugError::SyscallFailed("process_vm_readv", e)),
        }
    }

    /// Read tracee memory with planted breakpoints hidden: bytes at enabled
    /// sites' addresses show the saved original bytes instead of INT3. This
    /// is the view the disassembler sees.
    pub fn read_memory_without_traps(&self, addr: VirtAddr, size: usize) -> (r: DrbugResult<
        Vec<u8>,
    >)
        requires
            self.wf(),
            addr.0 + size <= u64::MAX,
        ensures
            r is Ok ==> r->Ok_0@.len() == size && exists|raw: Seq<u8>|
                raw.len() == size && r->Ok_0@ == overlay_spec(
                    raw,
                    addr.0 as int,
                    self.bps().sites_seq(),
                ),
            r is Err ==> r->Err_0 is SyscallFailed || r->Err_0 is Io,
    {
        let buf = match self.read_memory(addr, size) {
            Ok(b) => b,
            Err(e) => {
                return Err(e);
            },
        };
        let ghost raw = buf@;
        let out = hide_traps(buf, addr, &self.breakpoints);
        proof {
            assert(out@ == overlay_spec(raw, addr.0 as int, self.bps().sites_seq()));
        }
        Ok(out)
    }

    /// Write bytes into tracee memory as aligned 8-byte words; a trailing
    /// fragment shorter than a word is merged with the bytes already there so
    /// the neighbours are preserved.
    pub fn write_memory(&mut self, addr: VirtAddr, data: &Vec<u8>) -> (r: Empty)
        requires
            old(self).wf(),
            addr.0 + data@.len() + 8 <= u64::MAX,
            data@.len() + 8 <= usize::MAX,
        ensures
            *final(self) == *old(self),
            r is Err ==> r->Err_0 is SyscallFailed || r->Err_0 is Io,
    {
        let len = data.len();
        let mut written: usize = 0;
        while written < len
            invariant
                *self == *old(self),
                old(self).wf(),
                len == data@.len(),
                addr.0 + len + 8 <= u64::MAX,
                len + 8 <= usize::MAX,
                written <= len + 7,
            decreases len + 8 - written,
        {
            let curr: u64 = addr.0 + written as u64;
            let remaining = len - written;
            let word: u64 = if remaining >= 8 {
                crate::bytes::get_u64_at(data, written)
            } else {
                let old_bytes = match self.read_memory(VirtAddr(curr), 8) {
                    Ok(b) => b,
                    Err(e) => {
                        return Err(e);
                    },
                };
                merge_tail_word(data, written, &old_bytes)
            };
            match syscalls::ptrace_poke(self.pid, curr, word) {
                Ok(_) => {},
                Err(e) => {
                    return Err(DrbugError::SyscallFailed("write", e));
                },
            }
            written = written + 8;
        }
        Ok(())
    }

    /// Create a breakpoint site at the address, disabled; fails with the
    /// existing site's id when the address is already covered.
    pub fn create_breakpoint_site(&mut self, addr: VirtAddr) -> (r: DrbugResult<BreakpointSite>)
        requires
            old(self).wf(),
            old(self).bps().spec_next_id() < usize::MAX,
        ensures
            final(self).wf(),
            final(self).spec_pid() == old(self).spec_pid(),
            final(self).spec_state() == old(self).spec_state(),
            final(self).regs() == old(self).regs(),
            r is Err <==> has_addr(old(self).bps().sites_seq(), addr.0),
            r is Err ==> r->Err_0 == DrbugError::BreakpointSiteExists(
                old(self).bps().by_addr()[addr.0],
                addr,
            ) && *final(self) == *old(self),
            r is Ok ==> r->Ok_0 == (BreakpointSite {
                id: old(self).bps().spec_next_id(),
                addr,
                enabled: false,
                saved_byte: 0,
            }) && final(self).bps().sites_seq() == old(self).bps().sites_seq().push(r->Ok_0)
                && final(self).bps().spec_next_id() == old(self).bps().spec_next_id() + 1 && final(self).bps().issued_ids() == old(self).bps().issued_ids().push(r->Ok_0.id),
    {
        self.breakpoints.create(addr)
    }

    /// Plant INT3 at the site with this id: read the word at its address,
    /// save the displaced low byte, write the word back with INT3 in its low
    /// byte, and record the site enabled. Enabling an enabled site, or an
    /// unknown id, changes nothing and succeeds.
    pub fn enable_breakpoint(&mut self, id: usize) -> (r: Empty)
        requires
            old(self).wf(),
        ensures
            final(self).wf(),
            final(self).spec_pid() == old(self).spec_pid(),
            final(self).spec_state() == old(self).spec_state(),
            final(self).regs() == old(self).regs(),
            final(self).bps().spec_next_id() == old(self).bps().spec_next_id(),
            final(self).bps().issued_ids() == old(self).bps().issued_ids(),
            !has_id(old(self).bps().sites_seq(), id) ==> r is Ok && *final(self) == *old(self),
            has_id(old(self).bps().sites_seq(), id) && old(self).bps().by_id()[id].enabled ==> r
                is Ok && *final(self) == *old(self),
            r is Ok && has_id(old(self).bps().sites_seq(), id) && !old(self).bps().by_id()[id].enabled ==> {
                let s_old = old(self).bps().sites_seq();
                let s_new = final(self).bps().sites_seq();
                let ix = idx_of_id(s_old, id);
                &&& s_new.len() == s_old.len()
                &&& forall|k: int| 0 <= k < s_old.len() && k != ix ==> s_new[k] == s_old[k]
                &&& s_new[ix].id == id
                &&& s_new[ix].addr == s_old[ix].addr
                &&& s_new[ix].enabled
            },
            r is Err ==> r->Err_0 is SyscallFailed && *final(self) == *old(self),
    {
        let site = match self.breakpoints.get(&id) {
            Some(s) => s,
            None => {
                return Ok(());
            },
        };
        if site.enabled {
            return Ok(());
        }
        let word = match syscalls::ptrace_peek(self.pid, site.addr.0) {
            Ok(w) => w,
            Err(e) => {
                return Err(DrbugError::SyscallFailed("read", e));
            },
        };
        let (patched, saved) = enable_patch(word);
        match syscalls::ptrace_poke(self.pid, site.addr.0, patched) {
            Ok(_) => {},
            Err(e) => {
                return Err(DrbugError::SyscallFailed("write", e));
            },
        }
        self.breakpoints.set_enabled(id, saved);
        Ok(())
    }

    /// Restore the saved byte at the site with this id: read the word at its
    /// address, put the saved byte back into its low byte, write the word
    /// back, and record the site disabled. Disabling a disabled site, or an
    /// unknown id, changes nothing and succeeds.
    pub fn disable_breakpoint(&mut self, id: usize) -> (r: Empty)
        requires
            old(self).wf(),
        ensures
            final(self).wf(),
            final(self).spec_pid() == old(self).spec_pid(),
            final(self).spec_state() == old(self).spec_state(),
            final(self).regs() == old(self).regs(),
            final(self).bps().spec_next_id() == old(self).bps().spec_next_id(),
            final(self).bps().issued_ids() == old(self).bps().issued_ids(),
            final(self).bps().sites_seq().len() == old(self).bps().sites_seq().len(),
            forall|k: int|
                0 <= k < old(self).bps().sites_seq().len() ==> (#[trigger] final(self).bps().sites_seq()[k]).id == old(self).bps().sites_seq()[k].id && final(self).bps().sites_seq()[k].addr == old(self).bps().sites_seq()[k].addr,
            !has_id(old(self).bps().sites_seq(), id) ==> r is Ok && *final(self) == *old(self),
            has_id(old(self).bps().sites_seq(), id) && !old(self).bps().by_id()[id].enabled ==> r
                is Ok && *final(self) == *old(self),
            r is Ok && has_id(old(self).bps().sites_seq(), id) && old(self).bps().by_id()[id].enabled ==> final(self).bps().sites_seq() == old(self).bps().sites_seq().update(
                idx_of_id(old(self).bps().sites_seq(), id),
                BreakpointSite { enabled: false, ..old(self).bps().by_id()[id] },
            ),
            r is Err ==> r->Err_0 is SyscallFailed && *final(self) == *old(self),
    {
        let site = match self.breakpoints.get(&id) {
            Some(s) => s,
            None => {
                return Ok(());
            },
        };
        if !site.enabled {
            return Ok(());
        }
        let word = match syscalls::ptrace_peek(self.pid, site.addr.0) {
            Ok(w) => w,
            Err(e) => {
                return Err(DrbugError::SyscallFailed("read", e));
            },
        };
        let restored = disable_patch(word, site.saved_byte);
        match syscalls::ptrace_poke(self.pid, site.addr.0, restored) {
            Ok(_) => {},
            Err(e) => {
                return Err(DrbugError::SyscallFailed("write", e));
            },
        }
        self.breakpoints.set_disabled(id);
        Ok(())
    }

    /// Remove the site with this id: restore its byte first, then drop it
    /// from both indices. Unknown ids, and errors from the kernel, change
    /// nothing; an unknown or already-disabled id cannot fail.
    pub fn remove_breakpoint_by_id(&mut self, id: usize) -> (r: Empty)
        requires
            old(self).wf(),
        ensures
            final(self).wf(),
            final(self).spec_pid() == old(self).spec_pid(),
            final(self).spec_state() == old(self).spec_state(),
            final(self).regs() == old(self).regs(),
            !has_id(old(self).bps().sites_seq(), id) ==> r is Ok && *final(self) == *old(self),
            has_id(old(self).bps().sites_seq(), id) && !old(self).bps().by_id()[id].enabled ==> r
                is Ok,
            r is Ok && has_id(old(self).bps().sites_seq(), id) ==> final(self).bps().sites_seq()
                == old(self).bps().sites_seq().remove(
                idx_of_id(old(self).bps().sites_seq(), id),
            ),
            r is Ok ==> !has_id(final(self).bps().sites_seq(), id),
            r is Err ==> r->Err_0 is SyscallFailed && *final(self) == *old(self),
    {
        let ghost orig = self.bps().sites_seq();
        match self.disable_breakpoint(id) {
            Ok(_) => {},
            Err(e) => {
                return Err(e);
            },
        }
        let ghost mid = self.bps();
        let _ = self.breakpoints.remove(&id);
        proof {
            if has_id(orig, id) {
                let ci = idx_of_id(orig, id);
                assert(0 <= ci < orig.len() && orig[ci].id == id);
                let m = mid.sites_seq();
                assert(m.len() == orig.len());
                assert(m[ci].id == id);
                assert(has_id(m, id));
                let cj = idx_of_id(m, id);
                assert(0 <= cj < m.len() && m[cj].id == id);
                if cj != ci {
                    assert(m[cj].id < m[ci].id || m[ci].id < m[cj].id);
                }
                // the disable step touched index ci at most
                if orig[ci].enabled {
                    assert(m == orig.update(
                        ci,
                        BreakpointSite { enabled: false, ..orig[ci] },
                    ));
                } else {
                    assert(mid == old(self).bps());
                }
                assert(forall|k: int| 0 <= k < orig.len() && k != ci ==> m[k] == orig[k]);
                m.remove_ensures(ci);
                orig.remove_ensures(ci);
                let s = self.bps().sites_seq();
                assert(s == m.remove(ci));
                assert(s =~= orig.remove(ci));
                assert forall|k: int| 0 <= k < s.len() implies (#[trigger] s[k]).id != id by {
                    if k < ci {
                        assert(s[k] == m[k]);
                        assert(m[k].id < m[ci].id);
                    } else {
                        assert(s[k] == m[k + 1]);
                        assert(m[ci].id < m[k + 1].id);
                    }
                }
            } else {
                assert(mid == old(self).bps());
                assert(!has_id(mid.sites_seq(), id));
            }
        }
        Ok(())
    }

    /// Remove the site covering this address: restore its byte first, then
    /// drop it from both indices. Unknown addresses, and errors from the
    /// kernel, change nothing; an unknown address or a disabled site cannot
    /// fail.
    pub fn remove_breakpoint_by_addr(&mut self, addr: VirtAddr) -> (r: Empty)
        requires
            old(self).wf(),
        ensures
            final(self).wf(),
            final(self).spec_pid() == old(self).spec_pid(),
            final(self).spec_state() == old(self).spec_state(),
            final(self).regs() == old(self).regs(),
            !has_addr(old(self).bps().sites_seq(), addr.0) ==> r is Ok && *final(self) == *old(self),
            has_addr(old(self).bps().sites_seq(), addr.0) && !old(self).bps().sites_seq()[idx_of_addr(
                old(self).bps().sites_seq(),
                addr.0,
            )].enabled ==> r is Ok,
            r is Ok && has_addr(old(self).bps().sites_seq(), addr.0) ==> final(self).bps().sites_seq() == old(self).bps().sites_seq().remove(
                idx_of_addr(old(self).bps().sites_seq(), addr.0),
            ),
            r is Ok ==> !has_addr(final(self).bps().sites_seq(), addr.0),
            r is Err ==> r->Err_0 is SyscallFailed && *final(self) == *old(self),
    {
        let ghost orig = self.bps().sites_seq();
        let site = match self.breakpoints.get_by_addr(&addr) {
            Some(site) => site,
            None => {
                return Ok(());
            },
        };
        proof {
            let ca = idx_of_addr(orig, addr.0);
            assert(0 <= ca < orig.len() && orig[ca].addr.0 == addr.0);
            let cj = idx_of_id(orig, orig[ca].id);
            if cj != ca {
                assert(orig[cj].id < orig[ca].id || orig[ca].id < orig[cj].id);
            }
            assert(site == orig[ca]);
        }
        match self.disable_breakpoint(site.id) {
            Ok(_) => {},
            Err(e) => {
                return Err(e);
            },
        }
        let ghost mid = self.bps();
        let _ = self.breakpoints.remove(&site.id);
        proof {
            let m = mid.sites_seq();
            let ca = idx_of_addr(orig, addr.0);
            // the disable step keeps every id and address in place and
            // touched index ca at most
            assert(m.len() == orig.len());
            assert(m[ca].id == site.id && m[ca].addr == site.addr);
            assert(has_id(m, site.id));
            let ci = idx_of_id(m, site.id);
            if ci != ca {
                assert(m[ci].id < m[ca].id || m[ca].id < m[ci].id);
            }
            assert(ci == ca);
            if orig[ca].enabled {
                assert(m == orig.update(ca, BreakpointSite { enabled: false, ..orig[ca] }));
            } else {
                assert(mid == old(self).bps());
            }
            assert(forall|k: int| 0 <= k < orig.len() && k != ca ==> m[k] == orig[k]);
            m.remove_ensures(ci);
            orig.remove_ensures(ca);
            let s = self.bps().sites_seq();
            assert(s == m.remove(ca));
            assert(s =~= orig.remove(ca));
            assert forall|k: int| 0 <= k < s.len() implies (#[trigger] s[k]).addr.0 != addr.0 by {
                if k < ci {
                    assert(s[k] == m[k]);
                    assert(m[k].addr != m[ca].addr);
                } else {
                    assert(s[k] == m[k + 1]);
                    assert(m[k + 1].addr != m[ca].addr);
                }
            }
        }
        Ok(())
    }

    /// Shut the tracee down, best effort: stop the tracee if it is running,
    /// restore every planted byte and empty the store, detach, let the tracee
    /// continue, and — for a launched tracee — kill and reap it. Errors from
    /// the kernel are ignored; the bookkeeping always ends empty.
    pub fn shutdown(&mut self)
        requires
            old(self).wf(),
        ensures
            final(self).wf(),
            final(self).spec_pid() == old(self).spec_pid(),
            final(self).bps().sites_seq().len() == 0,
    {
        // breakpoint bytes can only be restored while the tracee is stopped
        if self.attached {
            if self.state.is_running() {
                let _ = syscalls::send_signal(self.pid, SignalKind::Stop);
                let _ = syscalls::wait_for(self.pid);
            }
        }
        while self.breakpoints.len() > 0
            invariant
                self.wf(),
                self.spec_pid() == old(self).spec_pid(),
            decreases self.bps().sites_seq().len(),
        {
            let id = self.breakpoints.all()[0].id;
            proof {
                assert(has_id(self.bps().sites_seq(), id));
            }
            let ghost pre_len = self.bps().sites_seq().len();
            let _ = self.disable_breakpoint(id);
            let ghost mid = self.bps().sites_seq();
            proof {
                assert(mid[0].id == id);
                assert(has_id(mid, id));
            }
            let _ = self.breakpoints.remove(&id);
            proof {
                let ci = idx_of_id(mid, id);
                assert(0 <= ci < mid.len() && mid[ci].id == id);
                mid.remove_ensures(ci);
                assert(self.bps().sites_seq().len() < pre_len);
            }
        }
        let _ = syscalls::ptrace_detach(self.pid);
        let _ = syscalls::send_signal(self.pid, SignalKind::Cont);
        if self.terminate_on_end {
            let _ = syscalls::send_signal(self.pid, SignalKind::Kill);
            let _ = syscalls::wait_for(self.pid);
        }
    }
}

} // verus!
