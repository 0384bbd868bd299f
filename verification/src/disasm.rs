//! Disassembly glue: decode tracee memory through the instruction decoder,
//! always reading through the breakpoint-hiding path so the user sees the
//! original instructions and never a planted INT3.

use iced_x86::Formatter;
use vstd::prelude::*;

use crate::address::VirtAddr;
use crate::error::{DrbugError, DrbugResult};
use crate::process::Process;

verus! {

/// A decoded machine instruction of the outside decoder; opaque here.
#[verifier::external_type_specification]
#[verifier::external_body]
pub struct ExInstruction(iced_x86::Instruction);

/// The longest x86 instruction is 15 bytes, so a window of this many bytes
/// per requested instruction always suffices.
pub const MAX_INSTRUCTION_LEN: usize = 15;

/// Relies on iced's Decoder in 64-bit mode: decodes up to `count`
/// instructions out of `code`, instruction pointers counted from `ip`.
#[verifier::external_body]
fn decode_instructions(code: &Vec<u8>, ip: u64, count: usize) -> (r: Vec<iced_x86::Instruction>)
    ensures
        r@.len() <= count,
{
    let decoder = iced_x86::Decoder::with_ip(64, code, ip, iced_x86::DecoderOptions::NONE);
    decoder.into_iter().take(count).collect()
}

/// Relies on iced's GasFormatter: one instruction's address and its text,
/// with lowercase hexadecimal.
#[verifier::external_body]
fn format_instruction(ins: &iced_x86::Instruction) -> (r: (u64, String)) {
    let mut f = iced_x86::GasFormatter::new();
    f.options_mut().set_uppercase_hex(false);
    let mut out = String::new();
    f.format(ins, &mut out);
    (ins.ip(), out)
}

impl Process {
    /// Disassemble `instr_count` instructions starting at `addr`, or at the
    /// cached program counter when no address is given. The bytes are read
    /// with breakpoints hidden.
    pub fn disassemble(&self, addr: Option<VirtAddr>, instr_count: usize) -> (r: DrbugResult<
        Vec<iced_x86::Instruction>,
    >)
        requires
            self.wf(),
        ensures
            r is Ok ==> r->Ok_0@.len() <= instr_count,
    {
        let pc = match addr {
            Some(a) => a,
            None => {
                match self.get_pc() {
                    Ok(p) => p,
                    Err(e) => {
                        return Err(e);
                    },
                }
            },
        };
        if instr_count > usize::MAX / 15 {
            return Err(DrbugError::Io("disassembly window does not fit the address space".to_owned()));
        }
        let size = instr_count * MAX_INSTRUCTION_LEN;
        if pc.0 > u64::MAX - size as u64 {
            return Err(DrbugError::Io("disassembly window does not fit the address space".to_owned()));
        }
        let code = match self.read_memory_without_traps(pc, size) {
            Ok(c) => c,
            Err(e) => {
                return Err(e);
            },
        };
        Ok(decode_instructions(&code, pc.0, instr_count))
    }

    /// Disassemble as text: each entry is an instruction's address and its
    /// formatted form.
    pub fn disassemble_text(&self, addr: Option<VirtAddr>, instr_count: usize) -> (r: DrbugResult<
        Vec<(u64, String)>,
    >)
        requires
            self.wf(),
        ensures
            r is Ok ==> r->Ok_0@.len() <= instr_count,
    {
        let instructions = match self.disassemble(addr, instr_count) {
            Ok(v) => v,
            Err(e) => {
                return Err(e);
            },
        };
        let mut out: Vec<(u64, String)> = Vec::new();
        let n = instructions.len();
        let mut i: usize = 0;
        while i < n
            invariant
                n == instructions@.len(),
                n <= instr_count,
                i <= n,
                out@.len() == i,
            decreases n - i,
        {
            let line = format_instruction(&instructions[i]);
            out.push(line);
            i = i + 1;
        }
        Ok(out)
    }
}

} // verus!
