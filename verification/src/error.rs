//! The error kinds the debugger core reports.

use vstd::prelude::*;

use crate::address::VirtAddr;
use crate::reg_value::RegisterValue;

verus! {

/// Everything a core operation can fail with.
#[derive(Clone, Debug)]
pub enum DrbugError {
    /// A breakpoint site with the given id already covers the address.
    BreakpointSiteExists(usize, VirtAddr),
    /// A byte slice had the wrong length for the requested conversion.
    ByteSliceConversion,
    /// The forked child wrote this diagnostic into the error channel and died.
    ChildProcessFailed(String),
    /// No register of this name exists in the catalog.
    InvalidRegisterName(String),
    /// A register descriptor carries a size the format does not admit.
    InvalidRegisterSize(usize),
    /// The value is wider than the register it was to be written into.
    InvalidRegisterValue(RegisterValue),
    /// An input/output failure outside the kernel-call paths.
    Io(String),
    /// Reads and writes of 80-bit extended-precision slots are not supported.
    LongDoubleUnsupported,
    /// A numeric or address literal could not be parsed.
    Parse(String),
    /// The launch error channel was used after being closed.
    PipeClosed,
    /// A kernel call failed: the syscall's name and its errno.
    SyscallFailed(&'static str, i32),
}

pub type DrbugResult<T> = Result<T, DrbugError>;

pub type Empty = DrbugResult<()>;

} // verus!
