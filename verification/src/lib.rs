//! A userspace debugger core for x86_64 Linux: process control under ptrace,
//! a register cache over the kernel user-area record, software breakpoints,
//! and page-aware memory I/O, with machine-checked contracts.

pub mod address;
pub mod breakpoints;
pub mod bytes;
pub mod disasm;
pub mod error;
pub mod float_bits;
pub mod memio;
pub mod parse;
pub mod process;
pub mod reg_catalog;
pub mod reg_value;
pub mod registers;
pub mod state;
mod syscalls;

pub use crate::address::VirtAddr;
pub use crate::breakpoints::{BreakpointSite, BreakpointStore};
pub use crate::error::{DrbugError, DrbugResult, Empty};
pub use crate::parse::{parse_bytes, parse_uint, parse_vector};
pub use crate::reg_catalog::{
    RegisterFormat, RegisterId, RegisterInfo, RegisterType, register_info_by_id,
    register_info_by_name,
};
pub use crate::reg_value::RegisterValue;
pub use crate::process::Process;
pub use crate::registers::{FpRegs, Registers};
pub use crate::state::{ProcessState, SignalKind, WaitOutcome};
