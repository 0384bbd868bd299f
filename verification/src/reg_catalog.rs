//! The register catalog: every architectural register the debugger
//! understands, with its byte offset into the kernel user-area record.
//!
//! Offsets and sizes mirror the x86_64 Linux `user` record: the
//! general-purpose block at offset 0, the floating-point block at offset 224
//! (x87 stack slots at 256, XMM vectors at 384), and the debug-register
//! array at offset 848; the record is 912 bytes in all. Sub-register aliases
//! carry the covering register's offset and a narrowed size.

use vstd::prelude::*;

use crate::error::{DrbugError, DrbugResult};
use crate::parse::str_eq;

verus! {

/// Size in bytes of the kernel user-area record the cache mirrors.
pub const USER_AREA_SIZE: usize = 912;

/// The class a register belongs to.
#[derive(Clone, Copy, Debug, PartialEq, Eq, Structural)]
pub enum RegisterType {
    General,
    SubGeneral,
    FloatingPoint,
    Debug,
}

/// How the bytes of a register are interpreted.
#[derive(Clone, Copy, Debug, PartialEq, Eq, Structural)]
pub enum RegisterFormat {
    Uint,
    DoubleFloat,
    LongDouble,
    Vector,
}

/// Stable identifier of one catalog entry.
#[allow(non_camel_case_types)]
#[derive(Clone, Copy, Debug, PartialEq, Eq, Hash, Structural)]
pub enum RegisterId {
    rax,
    rdx,
    rcx,
    rbx,
    rsi,
    rdi,
    rbp,
    rsp,
    r8,
    r9,
    r10,
    r11,
    r12,
    r13,
    r14,
    r15,
    rip,
    eflags,
    cs,
    fs,
    gs,
    ss,
    ds,
    es,
    orig_rax,
    eax,
    edx,
    ecx,
    ebx,
    esi,
    edi,
    ebp,
    esp,
    r8d,
    r9d,
    r10d,
    r11d,
    r12d,
    r13d,
    r14d,
    r15d,
    ax,
    dx,
    cx,
    bx,
    si,
    di,
    bp,
    sp,
    r8w,
    r9w,
    r10w,
    r11w,
    r12w,
    r13w,
    r14w,
    r15w,
    ah,
    dh,
    ch,
    bh,
    al,
    dl,
    cl,
    bl,
    sil,
    dil,
    bpl,
    spl,
    r8b,
    r9b,
    r10b,
    r11b,
    r12b,
    r13b,
    r14b,
    r15b,
    fcw,
    fsw,
    ftw,
    fop,
    frip,
    frdp,
    mxcsr,
    mxcsrmask,
    st0,
    st1,
    st2,
    st3,
    st4,
    st5,
    st6,
    st7,
    mm0,
    mm1,
    mm2,
    mm3,
    mm4,
    mm5,
    mm6,
    mm7,
    xmm0,
    xmm1,
    xmm2,
    xmm3,
    xmm4,
    xmm5,
    xmm6,
    xmm7,
    xmm8,
    xmm9,
    xmm10,
    xmm11,
    xmm12,
    xmm13,
    xmm14,
    xmm15,
    dr0,
    dr1,
    dr2,
    dr3,
    dr4,
    dr5,
    dr6,
    dr7,
}

/// One catalog entry: identity, kernel user-area placement, class and format.
#[derive(Clone, Copy, Debug)]
pub struct RegisterInfo {
    pub id: RegisterId,
    pub name: &'static str,
    pub dwarf_id: Option<u32>,
    pub size: usize,
    pub offset: usize,
    pub type_: RegisterType,
    pub format: RegisterFormat,
}

/// Byte offset of the register within the kernel user-area record.
pub open spec fn reg_offset(id: RegisterId) -> usize {
    match id {
        RegisterId::rax | RegisterId::eax | RegisterId::ax | RegisterId::ah | RegisterId::al => 80usize,
        RegisterId::rdx | RegisterId::edx | RegisterId::dx | RegisterId::dh | RegisterId::dl => 96usize,
        RegisterId::rcx | RegisterId::ecx | RegisterId::cx | RegisterId::ch | RegisterId::cl => 88usize,
        RegisterId::rbx | RegisterId::ebx | RegisterId::bx | RegisterId::bh | RegisterId::bl => 40usize,
        RegisterId::rsi | RegisterId::esi | RegisterId::si | RegisterId::sil => 104usize,
        RegisterId::rdi | RegisterId::edi | RegisterId::di | RegisterId::dil => 112usize,
        RegisterId::rbp | RegisterId::ebp | RegisterId::bp | RegisterId::bpl => 32usize,
        RegisterId::rsp | RegisterId::esp | RegisterId::sp | RegisterId::spl => 152usize,
        RegisterId::r8 | RegisterId::r8d | RegisterId::r8w | RegisterId::r8b => 72usize,
        RegisterId::r9 | RegisterId::r9d | RegisterId::r9w | RegisterId::r9b => 64usize,
        RegisterId::r10 | RegisterId::r10d | RegisterId::r10w | RegisterId::r10b => 56usize,
        RegisterId::r11 | RegisterId::r11d | RegisterId::r11w | RegisterId::r11b => 48usize,
        RegisterId::r12 | RegisterId::r12d | RegisterId::r12w | RegisterId::r12b => 24usize,
        RegisterId::r13 | RegisterId::r13d | RegisterId::r13w | RegisterId::r13b => 16usize,
        RegisterId::r14 | RegisterId::r14d | RegisterId::r14w | RegisterId::r14b => 8usize,
        RegisterId::r15 | RegisterId::r15d | RegisterId::r15w | RegisterId::r15b => 0usize,
        RegisterId::rip => 128usize,
        RegisterId::eflags => 144usize,
        RegisterId::cs => 136usize,
        RegisterId::fs => 200usize,
        RegisterId::gs => 208usize,
        RegisterId::ss => 160usize,
        RegisterId::ds => 184usize,
        RegisterId::es => 192usize,
        RegisterId::orig_rax => 120usize,
        RegisterId::fcw => 224usize,
        RegisterId::fsw => 226usize,
        RegisterId::ftw => 228usize,
        RegisterId::fop => 230usize,
        RegisterId::frip => 232usize,
        RegisterId::frdp => 240usize,
        RegisterId::mxcsr => 248usize,
        RegisterId::mxcsrmask => 252usize,
        RegisterId::st0 | RegisterId::mm0 => 256usize,
        RegisterId::st1 | RegisterId::mm1 => 272usize,
        RegisterId::st2 | RegisterId::mm2 => 288usize,
        RegisterId::st3 | RegisterId::mm3 => 304usize,
        RegisterId::st4 | RegisterId::mm4 => 320usize,
        RegisterId::st5 | RegisterId::mm5 => 336usize,
        RegisterId::st6 | RegisterId::mm6 => 352usize,
        RegisterId::st7 | RegisterId::mm7 => 368usize,
        RegisterId::xmm0 => 384usize,
        RegisterId::xmm1 => 400usize,
        RegisterId::xmm2 => 416usize,
        RegisterId::xmm3 => 432usize,
        RegisterId::xmm4 => 448usize,
        RegisterId::xmm5 => 464usize,
        RegisterId::xmm6 => 480usize,
        RegisterId::xmm7 => 496usize,
        RegisterId::xmm8 => 512usize,
        RegisterId::xmm9 => 528usize,
        RegisterId::xmm10 => 544usize,
        RegisterId::xmm11 => 560usize,
        RegisterId::xmm12 => 576usize,
        RegisterId::xmm13 => 592usize,
        RegisterId::xmm14 => 608usize,
        RegisterId::xmm15 => 624usize,
        RegisterId::dr0 => 848usize,
        RegisterId::dr1 => 856usize,
        RegisterId::dr2 => 864usize,
        RegisterId::dr3 => 872usize,
        RegisterId::dr4 => 880usize,
        RegisterId::dr5 => 888usize,
        RegisterId::dr6 => 896usize,
        RegisterId::dr7 => 904usize,
    }
}

/// Width of the register in bytes.
pub open spec fn reg_size(id: RegisterId) -> usize {
    match id {
        RegisterId::rax | RegisterId::rdx | RegisterId::rcx | RegisterId::rbx | RegisterId::rsi | RegisterId::rdi | RegisterId::rbp | RegisterId::rsp | RegisterId::r8 | RegisterId::r9 | RegisterId::r10 | RegisterId::r11 | RegisterId::r12 | RegisterId::r13 | RegisterId::r14 | RegisterId::r15 | RegisterId::rip | RegisterId::eflags | RegisterId::cs | RegisterId::fs | RegisterId::gs | RegisterId::ss | RegisterId::ds | RegisterId::es | RegisterId::orig_rax | RegisterId::frip | RegisterId::frdp | RegisterId::mm0 | RegisterId::mm1 | RegisterId::mm2 | RegisterId::mm3 | RegisterId::mm4 | RegisterId::mm5 | RegisterId::mm6 | RegisterId::mm7 | RegisterId::dr0 | RegisterId::dr1 | RegisterId::dr2 | RegisterId::dr3 | RegisterId::dr4 | RegisterId::dr5 | RegisterId::dr6 | RegisterId::dr7 => 8usize,
        RegisterId::eax | RegisterId::edx | RegisterId::ecx | RegisterId::ebx | RegisterId::esi | RegisterId::edi | RegisterId::ebp | RegisterId::esp | RegisterId::r8d | RegisterId::r9d | RegisterId::r10d | RegisterId::r11d | RegisterId::r12d | RegisterId::r13d | RegisterId::r14d | RegisterId::r15d | RegisterId::mxcsr | RegisterId::mxcsrmask => 4usize,
        RegisterId::ax | RegisterId::dx | RegisterId::cx | RegisterId::bx | RegisterId::si | RegisterId::di | RegisterId::bp | RegisterId::sp | RegisterId::r8w | RegisterId::r9w | RegisterId::r10w | RegisterId::r11w | RegisterId::r12w | RegisterId::r13w | RegisterId::r14w | RegisterId::r15w | RegisterId::fcw | RegisterId::fsw | RegisterId::ftw | RegisterId::fop => 2usize,
        RegisterId::ah | RegisterId::dh | RegisterId::ch | RegisterId::bh | RegisterId::al | RegisterId::dl | RegisterId::cl | RegisterId::bl | RegisterId::sil | RegisterId::dil | RegisterId::bpl | RegisterId::spl | RegisterId::r8b | RegisterId::r9b | RegisterId::r10b | RegisterId::r11b | RegisterId::r12b | RegisterId::r13b | RegisterId::r14b | RegisterId::r15b => 1usize,
        RegisterId::st0 | RegisterId::st1 | RegisterId::st2 | RegisterId::st3 | RegisterId::st4 | RegisterId::st5 | RegisterId::st6 | RegisterId::st7 | RegisterId::xmm0 | RegisterId::xmm1 | RegisterId::xmm2 | RegisterId::xmm3 | RegisterId::xmm4 | RegisterId::xmm5 | RegisterId::xmm6 | RegisterId::xmm7 | RegisterId::xmm8 | RegisterId::xmm9 | RegisterId::xmm10 | RegisterId::xmm11 | RegisterId::xmm12 | RegisterId::xmm13 | RegisterId::xmm14 | RegisterId::xmm15 => 16usize,
    }
}

/// The register's class.
pub open spec fn reg_type(id: RegisterId) -> RegisterType {
    match id {
        RegisterId::rax | RegisterId::rdx | RegisterId::rcx | RegisterId::rbx | RegisterId::rsi | RegisterId::rdi | RegisterId::rbp | RegisterId::rsp | RegisterId::r8 | RegisterId::r9 | RegisterId::r10 | RegisterId::r11 | RegisterId::r12 | RegisterId::r13 | RegisterId::r14 | RegisterId::r15 | RegisterId::rip | RegisterId::eflags | RegisterId::cs | RegisterId::fs | RegisterId::gs | RegisterId::ss | RegisterId::ds | RegisterId::es | RegisterId::orig_rax => RegisterType::General,
        RegisterId::eax | RegisterId::edx | RegisterId::ecx | RegisterId::ebx | RegisterId::esi | RegisterId::edi | RegisterId::ebp | RegisterId::esp | RegisterId::r8d | RegisterId::r9d | RegisterId::r10d | RegisterId::r11d | RegisterId::r12d | RegisterId::r13d | RegisterId::r14d | RegisterId::r15d | RegisterId::ax | RegisterId::dx | RegisterId::cx | RegisterId::bx | RegisterId::si | RegisterId::di | RegisterId::bp | RegisterId::sp | RegisterId::r8w | RegisterId::r9w | RegisterId::r10w | RegisterId::r11w | RegisterId::r12w | RegisterId::r13w | RegisterId::r14w | RegisterId::r15w | RegisterId::ah | RegisterId::dh | RegisterId::ch | RegisterId::bh | RegisterId::al | RegisterId::dl | RegisterId::cl | RegisterId::bl | RegisterId::sil | RegisterId::dil | RegisterId::bpl | RegisterId::spl | RegisterId::r8b | RegisterId::r9b | RegisterId::r10b | RegisterId::r11b | RegisterId::r12b | RegisterId::r13b | RegisterId::r14b | RegisterId::r15b => RegisterType::SubGeneral,
        RegisterId::fcw | RegisterId::fsw | RegisterId::ftw | RegisterId::fop | RegisterId::frip | RegisterId::frdp | RegisterId::mxcsr | RegisterId::mxcsrmask | RegisterId::st0 | RegisterId::st1 | RegisterId::st2 | RegisterId::st3 | RegisterId::st4 | RegisterId::st5 | RegisterId::st6 | RegisterId::st7 | RegisterId::mm0 | RegisterId::mm1 | RegisterId::mm2 | RegisterId::mm3 | RegisterId::mm4 | RegisterId::mm5 | RegisterId::mm6 | RegisterId::mm7 | RegisterId::xmm0 | RegisterId::xmm1 | RegisterId::xmm2 | RegisterId::xmm3 | RegisterId::xmm4 | RegisterId::xmm5 | RegisterId::xmm6 | RegisterId::xmm7 | RegisterId::xmm8 | RegisterId::xmm9 | RegisterId::xmm10 | RegisterId::xmm11 | RegisterId::xmm12 | RegisterId::xmm13 | RegisterId::xmm14 | RegisterId::xmm15 => RegisterType::FloatingPoint,
        RegisterId::dr0 | RegisterId::dr1 | RegisterId::dr2 | RegisterId::dr3 | RegisterId::dr4 | RegisterId::dr5 | RegisterId::dr6 | RegisterId::dr7 => RegisterType::Debug,
    }
}

/// The register's value format.
pub open spec fn reg_format(id: RegisterId) -> RegisterFormat {
    match id {
        RegisterId::rax | RegisterId::rdx | RegisterId::rcx | RegisterId::rbx | RegisterId::rsi | RegisterId::rdi | RegisterId::rbp | RegisterId::rsp | RegisterId::r8 | RegisterId::r9 | RegisterId::r10 | RegisterId::r11 | RegisterId::r12 | RegisterId::r13 | RegisterId::r14 | RegisterId::r15 | RegisterId::rip | RegisterId::eflags | RegisterId::cs | RegisterId::fs | RegisterId::gs | RegisterId::ss | RegisterId::ds | RegisterId::es | RegisterId::orig_rax | RegisterId::eax | RegisterId::edx | RegisterId::ecx | RegisterId::ebx | RegisterId::esi | RegisterId::edi | RegisterId::ebp | RegisterId::esp | RegisterId::r8d | RegisterId::r9d | RegisterId::r10d | RegisterId::r11d | RegisterId::r12d | RegisterId::r13d | RegisterId::r14d | RegisterId::r15d | RegisterId::ax | RegisterId::dx | RegisterId::cx | RegisterId::bx | RegisterId::si | RegisterId::di | RegisterId::bp | RegisterId::sp | RegisterId::r8w | RegisterId::r9w | RegisterId::r10w | RegisterId::r11w | RegisterId::r12w | RegisterId::r13w | RegisterId::r14w | RegisterId::r15w | RegisterId::ah | RegisterId::dh | RegisterId::ch | RegisterId::bh | RegisterId::al | RegisterId::dl | RegisterId::cl | RegisterId::bl | RegisterId::sil | RegisterId::dil | RegisterId::bpl | RegisterId::spl | RegisterId::r8b | RegisterId::r9b | RegisterId::r10b | RegisterId::r11b | RegisterId::r12b | RegisterId::r13b | RegisterId::r14b | RegisterId::r15b | RegisterId::fcw | RegisterId::fsw | RegisterId::ftw | RegisterId::fop | RegisterId::frip | RegisterId::frdp | RegisterId::mxcsr | RegisterId::mxcsrmask | RegisterId::dr0 | RegisterId::dr1 | RegisterId::dr2 | RegisterId::dr3 | RegisterId::dr4 | RegisterId::dr5 | RegisterId::dr6 | RegisterId::dr7 => RegisterFormat::Uint,
        RegisterId::st0 | RegisterId::st1 | RegisterId::st2 | RegisterId::st3 | RegisterId::st4 | RegisterId::st5 | RegisterId::st6 | RegisterId::st7 => RegisterFormat::LongDouble,
        RegisterId::mm0 | RegisterId::mm1 | RegisterId::mm2 | RegisterId::mm3 | RegisterId::mm4 | RegisterId::mm5 | RegisterId::mm6 | RegisterId::mm7 | RegisterId::xmm0 | RegisterId::xmm1 | RegisterId::xmm2 | RegisterId::xmm3 | RegisterId::xmm4 | RegisterId::xmm5 | RegisterId::xmm6 | RegisterId::xmm7 | RegisterId::xmm8 | RegisterId::xmm9 | RegisterId::xmm10 | RegisterId::xmm11 | RegisterId::xmm12 | RegisterId::xmm13 | RegisterId::xmm14 | RegisterId::xmm15 => RegisterFormat::Vector,
    }
}

/// The register's DWARF number, where one is architecturally defined.
pub open spec fn reg_dwarf(id: RegisterId) -> Option<u32> {
    match id {
        RegisterId::rax => Some(0u32),
        RegisterId::rdx => Some(1u32),
        RegisterId::rcx => Some(2u32),
        RegisterId::rbx => Some(3u32),
        RegisterId::rsi => Some(4u32),
        RegisterId::rdi => Some(5u32),
        RegisterId::rbp => Some(6u32),
        RegisterId::rsp => Some(7u32),
        RegisterId::r8 => Some(8u32),
        RegisterId::r9 => Some(9u32),
        RegisterId::r10 => Some(10u32),
        RegisterId::r11 => Some(11u32),
        RegisterId::r12 => Some(12u32),
        RegisterId::r13 => Some(13u32),
        RegisterId::r14 => Some(14u32),
        RegisterId::r15 => Some(15u32),
        RegisterId::rip => Some(16u32),
        RegisterId::eflags => Some(49u32),
        RegisterId::cs => Some(51u32),
        RegisterId::fs => Some(54u32),
        RegisterId::gs => Some(55u32),
        RegisterId::ss => Some(52u32),
        RegisterId::ds => Some(53u32),
        RegisterId::es => Some(50u32),
        RegisterId::orig_rax | RegisterId::eax | RegisterId::edx | RegisterId::ecx | RegisterId::ebx | RegisterId::esi | RegisterId::edi | RegisterId::ebp | RegisterId::esp | RegisterId::r8d | RegisterId::r9d | RegisterId::r10d | RegisterId::r11d | RegisterId::r12d | RegisterId::r13d | RegisterId::r14d | RegisterId::r15d | RegisterId::ax | RegisterId::dx | RegisterId::cx | RegisterId::bx | RegisterId::si | RegisterId::di | RegisterId::bp | RegisterId::sp | RegisterId::r8w | RegisterId::r9w | RegisterId::r10w | RegisterId::r11w | RegisterId::r12w | RegisterId::r13w | RegisterId::r14w | RegisterId::r15w | RegisterId::ah | RegisterId::dh | RegisterId::ch | RegisterId::bh | RegisterId::al | RegisterId::dl | RegisterId::cl | RegisterId::bl | RegisterId::sil | RegisterId::dil | RegisterId::bpl | RegisterId::spl | RegisterId::r8b | RegisterId::r9b | RegisterId::r10b | RegisterId::r11b | RegisterId::r12b | RegisterId::r13b | RegisterId::r14b | RegisterId::r15b | RegisterId::ftw | RegisterId::fop | RegisterId::frip | RegisterId::frdp | RegisterId::mxcsrmask | RegisterId::dr0 | RegisterId::dr1 | RegisterId::dr2 | RegisterId::dr3 | RegisterId::dr4 | RegisterId::dr5 | RegisterId::dr6 | RegisterId::dr7 => None,
        RegisterId::fcw => Some(65u32),
        RegisterId::fsw => Some(66u32),
        RegisterId::mxcsr => Some(64u32),
        RegisterId::st0 => Some(33u32),
        RegisterId::st1 => Some(34u32),
        RegisterId::st2 => Some(35u32),
        RegisterId::st3 => Some(36u32),
        RegisterId::st4 => Some(37u32),
        RegisterId::st5 => Some(38u32),
        RegisterId::st6 => Some(39u32),
        RegisterId::st7 => Some(40u32),
        RegisterId::mm0 => Some(41u32),
        RegisterId::mm1 => Some(42u32),
        RegisterId::mm2 => Some(43u32),
        RegisterId::mm3 => Some(44u32),
        RegisterId::mm4 => Some(45u32),
        RegisterId::mm5 => Some(46u32),
        RegisterId::mm6 => Some(47u32),
        RegisterId::mm7 => Some(48u32),
        RegisterId::xmm0 => Some(17u32),
        RegisterId::xmm1 => Some(18u32),
        RegisterId::xmm2 => Some(19u32),
        RegisterId::xmm3 => Some(20u32),
        RegisterId::xmm4 => Some(21u32),
        RegisterId::xmm5 => Some(22u32),
        RegisterId::xmm6 => Some(23u32),
        RegisterId::xmm7 => Some(24u32),
        RegisterId::xmm8 => Some(25u32),
        RegisterId::xmm9 => Some(26u32),
        RegisterId::xmm10 => Some(27u32),
        RegisterId::xmm11 => Some(28u32),
        RegisterId::xmm12 => Some(29u32),
        RegisterId::xmm13 => Some(30u32),
        RegisterId::xmm14 => Some(31u32),
        RegisterId::xmm15 => Some(32u32),
    }
}

/// The register's human name.
pub open spec fn reg_name_view(id: RegisterId) -> Seq<char> {
    match id {
        RegisterId::rax => "rax"@,
        RegisterId::rdx => "rdx"@,
        RegisterId::rcx => "rcx"@,
        RegisterId::rbx => "rbx"@,
        RegisterId::rsi => "rsi"@,
        RegisterId::rdi => "rdi"@,
        RegisterId::rbp => "rbp"@,
        RegisterId::rsp => "rsp"@,
        RegisterId::r8 => "r8"@,
        RegisterId::r9 => "r9"@,
        RegisterId::r10 => "r10"@,
        RegisterId::r11 => "r11"@,
        RegisterId::r12 => "r12"@,
        RegisterId::r13 => "r13"@,
        RegisterId::r14 => "r14"@,
        RegisterId::r15 => "r15"@,
        RegisterId::rip => "rip"@,
        RegisterId::eflags => "eflags"@,
        RegisterId::cs => "cs"@,
        RegisterId::fs => "fs"@,
        RegisterId::gs => "gs"@,
        RegisterId::ss => "ss"@,
        RegisterId::ds => "ds"@,
        RegisterId::es => "es"@,
        RegisterId::orig_rax => "orig_rax"@,
        RegisterId::eax => "eax"@,
        RegisterId::edx => "edx"@,
        RegisterId::ecx => "ecx"@,
        RegisterId::ebx => "ebx"@,
        RegisterId::esi => "esi"@,
        RegisterId::edi => "edi"@,
        RegisterId::ebp => "ebp"@,
        RegisterId::esp => "esp"@,
        RegisterId::r8d => "r8d"@,
        RegisterId::r9d => "r9d"@,
        RegisterId::r10d => "r10d"@,
        RegisterId::r11d => "r11d"@,
        RegisterId::r12d => "r12d"@,
        RegisterId::r13d => "r13d"@,
        RegisterId::r14d => "r14d"@,
        RegisterId::r15d => "r15d"@,
        RegisterId::ax => "ax"@,
        RegisterId::dx => "dx"@,
        RegisterId::cx => "cx"@,
        RegisterId::bx => "bx"@,
        RegisterId::si => "si"@,
        RegisterId::di => "di"@,
        RegisterId::bp => "bp"@,
        RegisterId::sp => "sp"@,
        RegisterId::r8w => "r8w"@,
        RegisterId::r9w => "r9w"@,
        RegisterId::r10w => "r10w"@,
        RegisterId::r11w => "r11w"@,
        RegisterId::r12w => "r12w"@,
        RegisterId::r13w => "r13w"@,
        RegisterId::r14w => "r14w"@,
        RegisterId::r15w => "r15w"@,
        RegisterId::ah => "ah"@,
        RegisterId::dh => "dh"@,
        RegisterId::ch => "ch"@,
        RegisterId::bh => "bh"@,
        RegisterId::al => "al"@,
        RegisterId::dl => "dl"@,
        RegisterId::cl => "cl"@,
        RegisterId::bl => "bl"@,
        RegisterId::sil => "sil"@,
        RegisterId::dil => "dil"@,
        RegisterId::bpl => "bpl"@,
        RegisterId::spl => "spl"@,
        RegisterId::r8b => "r8b"@,
        RegisterId::r9b => "r9b"@,
        RegisterId::r10b => "r10b"@,
        RegisterId::r11b => "r11b"@,
        RegisterId::r12b => "r12b"@,
        RegisterId::r13b => "r13b"@,
        RegisterId::r14b => "r14b"@,
        RegisterId::r15b => "r15b"@,
        RegisterId::fcw => "fcw"@,
        RegisterId::fsw => "fsw"@,
        RegisterId::ftw => "ftw"@,
        RegisterId::fop => "fop"@,
        RegisterId::frip => "frip"@,
        RegisterId::frdp => "frdp"@,
        RegisterId::mxcsr => "mxcsr"@,
        RegisterId::mxcsrmask => "mxcsrmask"@,
        RegisterId::st0 => "st0"@,
        RegisterId::st1 => "st1"@,
        RegisterId::st2 => "st2"@,
        RegisterId::st3 => "st3"@,
        RegisterId::st4 => "st4"@,
        RegisterId::st5 => "st5"@,
        RegisterId::st6 => "st6"@,
        RegisterId::st7 => "st7"@,
        RegisterId::mm0 => "mm0"@,
        RegisterId::mm1 => "mm1"@,
        RegisterId::mm2 => "mm2"@,
        RegisterId::mm3 => "mm3"@,
        RegisterId::mm4 => "mm4"@,
        RegisterId::mm5 => "mm5"@,
        RegisterId::mm6 => "mm6"@,
        RegisterId::mm7 => "mm7"@,
        RegisterId::xmm0 => "xmm0"@,
        RegisterId::xmm1 => "xmm1"@,
        RegisterId::xmm2 => "xmm2"@,
        RegisterId::xmm3 => "xmm3"@,
        RegisterId::xmm4 => "xmm4"@,
        RegisterId::xmm5 => "xmm5"@,
        RegisterId::xmm6 => "xmm6"@,
        RegisterId::xmm7 => "xmm7"@,
        RegisterId::xmm8 => "xmm8"@,
        RegisterId::xmm9 => "xmm9"@,
        RegisterId::xmm10 => "xmm10"@,
        RegisterId::xmm11 => "xmm11"@,
        RegisterId::xmm12 => "xmm12"@,
        RegisterId::xmm13 => "xmm13"@,
        RegisterId::xmm14 => "xmm14"@,
        RegisterId::xmm15 => "xmm15"@,
        RegisterId::dr0 => "dr0"@,
        RegisterId::dr1 => "dr1"@,
        RegisterId::dr2 => "dr2"@,
        RegisterId::dr3 => "dr3"@,
        RegisterId::dr4 => "dr4"@,
        RegisterId::dr5 => "dr5"@,
        RegisterId::dr6 => "dr6"@,
        RegisterId::dr7 => "dr7"@,
    }
}

/// The entry's fields agree with the catalog's specification of its id.
pub open spec fn info_ok(info: RegisterInfo) -> bool {
    &&& info.offset == reg_offset(info.id)
    &&& info.size == reg_size(info.id)
    &&& info.type_ == reg_type(info.id)
    &&& info.format == reg_format(info.id)
    &&& info.dwarf_id == reg_dwarf(info.id)
    &&& info.name@ == reg_name_view(info.id)
}

/// Every register fits inside the user-area record.
pub proof fn lemma_catalog_fits(id: RegisterId)
    ensures
        reg_offset(id) + reg_size(id) <= USER_AREA_SIZE,
{
}

/// One block of the catalog's declaration order.
pub open spec fn catalog_order_a() -> Seq<RegisterId> {
    seq![
        RegisterId::rax,
        RegisterId::rdx,
        RegisterId::rcx,
        RegisterId::rbx,
        RegisterId::rsi,
        RegisterId::rdi,
        RegisterId::rbp,
        RegisterId::rsp,
        RegisterId::r8,
        RegisterId::r9,
        RegisterId::r10,
        RegisterId::r11,
        RegisterId::r12,
        RegisterId::r13,
        RegisterId::r14,
        RegisterId::r15,
        RegisterId::rip,
        RegisterId::eflags,
        RegisterId::cs,
        RegisterId::fs,
        RegisterId::gs,
        RegisterId::ss,
        RegisterId::ds,
        RegisterId::es,
        RegisterId::orig_rax,
    ]
}

/// One block of the catalog's declaration order.
pub open spec fn catalog_order_b() -> Seq<RegisterId> {
    seq![
        RegisterId::eax,
        RegisterId::edx,
        RegisterId::ecx,
        RegisterId::ebx,
        RegisterId::esi,
        RegisterId::edi,
        RegisterId::ebp,
        RegisterId::esp,
        RegisterId::r8d,
        RegisterId::r9d,
        RegisterId::r10d,
        RegisterId::r11d,
        RegisterId::r12d,
        RegisterId::r13d,
        RegisterId::r14d,
        RegisterId::r15d,
        RegisterId::ax,
        RegisterId::dx,
        RegisterId::cx,
        RegisterId::bx,
        RegisterId::si,
        RegisterId::di,
        RegisterId::bp,
        RegisterId::sp,
        RegisterId::r8w,
    ]
}

/// One block of the catalog's declaration order.
pub open spec fn catalog_order_c() -> Seq<RegisterId> {
    seq![
        RegisterId::r9w,
        RegisterId::r10w,
        RegisterId::r11w,
        RegisterId::r12w,
        RegisterId::r13w,
        RegisterId::r14w,
        RegisterId::r15w,
        RegisterId::ah,
        RegisterId::dh,
        RegisterId::ch,
        RegisterId::bh,
        RegisterId::al,
        RegisterId::dl,
        RegisterId::cl,
        RegisterId::bl,
        RegisterId::sil,
        RegisterId::dil,
        RegisterId::bpl,
        RegisterId::spl,
        RegisterId::r8b,
        RegisterId::r9b,
        RegisterId::r10b,
        RegisterId::r11b,
        RegisterId::r12b,
        RegisterId::r13b,
    ]
}

/// One block of the catalog's declaration order.
pub open spec fn catalog_order_d() -> Seq<RegisterId> {
    seq![
        RegisterId::r14b,
        RegisterId::r15b,
        RegisterId::fcw,
        RegisterId::fsw,
        RegisterId::ftw,
        RegisterId::fop,
        RegisterId::frip,
        RegisterId::frdp,
        RegisterId::mxcsr,
        RegisterId::mxcsrmask,
        RegisterId::st0,
        RegisterId::st1,
        RegisterId::st2,
        RegisterId::st3,
        RegisterId::st4,
        RegisterId::st5,
        RegisterId::st6,
        RegisterId::st7,
        RegisterId::mm0,
        RegisterId::mm1,
        RegisterId::mm2,
        RegisterId::mm3,
        RegisterId::mm4,
        RegisterId::mm5,
        RegisterId::mm6,
    ]
}

/// One block of the catalog's declaration order.
pub open spec fn catalog_order_e() -> Seq<RegisterId> {
    seq![
        RegisterId::mm7,
        RegisterId::xmm0,
        RegisterId::xmm1,
        RegisterId::xmm2,
        RegisterId::xmm3,
        RegisterId::xmm4,
        RegisterId::xmm5,
        RegisterId::xmm6,
        RegisterId::xmm7,
        RegisterId::xmm8,
        RegisterId::xmm9,
        RegisterId::xmm10,
        RegisterId::xmm11,
        RegisterId::xmm12,
        RegisterId::xmm13,
        RegisterId::xmm14,
        RegisterId::xmm15,
        RegisterId::dr0,
        RegisterId::dr1,
        RegisterId::dr2,
        RegisterId::dr3,
        RegisterId::dr4,
        RegisterId::dr5,
        RegisterId::dr6,
        RegisterId::dr7,
    ]
}

/// The catalog's declaration order.
pub open spec fn catalog_order() -> Seq<RegisterId> {
    catalog_order_a() + catalog_order_b() + catalog_order_c() + catalog_order_d()
        + catalog_order_e()
}

#[verifier::spinoff_prover]
#[verifier::rlimit(60)]
fn push_catalog_ids_a(v: &mut Vec<RegisterId>)
    ensures
        final(v)@ == old(v)@ + catalog_order_a(),
{
    v.push(RegisterId::rax);
    v.push(RegisterId::rdx);
    v.push(RegisterId::rcx);
    v.push(RegisterId::rbx);
    v.push(RegisterId::rsi);
    v.push(RegisterId::rdi);
    v.push(RegisterId::rbp);
    v.push(RegisterId::rsp);
    v.push(RegisterId::r8);
    v.push(RegisterId::r9);
    v.push(RegisterId::r10);
    v.push(RegisterId::r11);
    v.push(RegisterId::r12);
    v.push(RegisterId::r13);
    v.push(RegisterId::r14);
    v.push(RegisterId::r15);
    v.push(RegisterId::rip);
    v.push(RegisterId::eflags);
    v.push(RegisterId::cs);
    v.push(RegisterId::fs);
    v.push(RegisterId::gs);
    v.push(RegisterId::ss);
    v.push(RegisterId::ds);
    v.push(RegisterId::es);
    v.push(RegisterId::orig_rax);
    assert(v@ =~= old(v)@ + catalog_order_a());
}

#[verifier::spinoff_prover]
#[verifier::rlimit(60)]
fn push_catalog_ids_b(v: &mut Vec<RegisterId>)
    ensures
        final(v)@ == old(v)@ + catalog_order_b(),
{
    v.push(RegisterId::eax);
    v.push(RegisterId::edx);
    v.push(RegisterId::ecx);
    v.push(RegisterId::ebx);
    v.push(RegisterId::esi);
    v.push(RegisterId::edi);
    v.push(RegisterId::ebp);
    v.push(RegisterId::esp);
    v.push(RegisterId::r8d);
    v.push(RegisterId::r9d);
    v.push(RegisterId::r10d);
    v.push(RegisterId::r11d);
    v.push(RegisterId::r12d);
    v.push(RegisterId::r13d);
    v.push(RegisterId::r14d);
    v.push(RegisterId::r15d);
    v.push(RegisterId::ax);
    v.push(RegisterId::dx);
    v.push(RegisterId::cx);
    v.push(RegisterId::bx);
    v.push(RegisterId::si);
    v.push(RegisterId::di);
    v.push(RegisterId::bp);
    v.push(RegisterId::sp);
    v.push(RegisterId::r8w);
    assert(v@ =~= old(v)@ + catalog_order_b());
}

#[verifier::spinoff_prover]
#[verifier::rlimit(60)]
fn push_catalog_ids_c(v: &mut Vec<RegisterId>)
    ensures
        final(v)@ == old(v)@ + catalog_order_c(),
{
    v.push(RegisterId::r9w);
    v.push(RegisterId::r10w);
    v.push(RegisterId::r11w);
    v.push(RegisterId::r12w);
    v.push(RegisterId::r13w);
    v.push(RegisterId::r14w);
    v.push(RegisterId::r15w);
    v.push(RegisterId::ah);
    v.push(RegisterId::dh);
    v.push(RegisterId::ch);
    v.push(RegisterId::bh);
    v.push(RegisterId::al);
    v.push(RegisterId::dl);
    v.push(RegisterId::cl);
    v.push(RegisterId::bl);
    v.push(RegisterId::sil);
    v.push(RegisterId::dil);
    v.push(RegisterId::bpl);
    v.push(RegisterId::spl);
    v.push(RegisterId::r8b);
    v.push(RegisterId::r9b);
    v.push(RegisterId::r10b);
    v.push(RegisterId::r11b);
    v.push(RegisterId::r12b);
    v.push(RegisterId::r13b);
    assert(v@ =~= old(v)@ + catalog_order_c());
}

#[verifier::spinoff_prover]
#[verifier::rlimit(60)]
fn push_catalog_ids_d(v: &mut Vec<RegisterId>)
    ensures
        final(v)@ == old(v)@ + catalog_order_d(),
{
    v.push(RegisterId::r14b);
    v.push(RegisterId::r15b);
    v.push(RegisterId::fcw);
    v.push(RegisterId::fsw);
    v.push(RegisterId::ftw);
    v.push(RegisterId::fop);
    v.push(RegisterId::frip);
    v.push(RegisterId::frdp);
    v.push(RegisterId::mxcsr);
    v.push(RegisterId::mxcsrmask);
    v.push(RegisterId::st0);
    v.push(RegisterId::st1);
    v.push(RegisterId::st2);
    v.push(RegisterId::st3);
    v.push(RegisterId::st4);
    v.push(RegisterId::st5);
    v.push(RegisterId::st6);
    v.push(RegisterId::st7);
    v.push(RegisterId::mm0);
    v.push(RegisterId::mm1);
    v.push(RegisterId::mm2);
    v.push(RegisterId::mm3);
    v.push(RegisterId::mm4);
    v.push(RegisterId::mm5);
    v.push(RegisterId::mm6);
    assert(v@ =~= old(v)@ + catalog_order_d());
}

#[verifier::spinoff_prover]
#[verifier::rlimit(60)]
fn push_catalog_ids_e(v: &mut Vec<RegisterId>)
    ensures
        final(v)@ == old(v)@ + catalog_order_e(),
{
    v.push(RegisterId::mm7);
    v.push(RegisterId::xmm0);
    v.push(RegisterId::xmm1);
    v.push(RegisterId::xmm2);
    v.push(RegisterId::xmm3);
    v.push(RegisterId::xmm4);
    v.push(RegisterId::xmm5);
    v.push(RegisterId::xmm6);
    v.push(RegisterId::xmm7);
    v.push(RegisterId::xmm8);
    v.push(RegisterId::xmm9);
    v.push(RegisterId::xmm10);
    v.push(RegisterId::xmm11);
    v.push(RegisterId::xmm12);
    v.push(RegisterId::xmm13);
    v.push(RegisterId::xmm14);
    v.push(RegisterId::xmm15);
    v.push(RegisterId::dr0);
    v.push(RegisterId::dr1);
    v.push(RegisterId::dr2);
    v.push(RegisterId::dr3);
    v.push(RegisterId::dr4);
    v.push(RegisterId::dr5);
    v.push(RegisterId::dr6);
    v.push(RegisterId::dr7);
    assert(v@ =~= old(v)@ + catalog_order_e());
}

/// The identifiers of every register, in declaration order.
fn catalog_ids() -> (r: Vec<RegisterId>)
    ensures
        r@ == catalog_order(),
{
    let mut v: Vec<RegisterId> = Vec::new();
    push_catalog_ids_a(&mut v);
    push_catalog_ids_b(&mut v);
    push_catalog_ids_c(&mut v);
    push_catalog_ids_d(&mut v);
    push_catalog_ids_e(&mut v);
    assert(v@ =~= catalog_order());
    v
}

/// The sequence is the whole catalog: one well-formed entry per register,
/// in declaration order.
pub open spec fn catalog_entries_ok(s: Seq<RegisterInfo>) -> bool {
    &&& s.len() == catalog_order().len()
    &&& forall|i: int| 0 <= i < s.len() ==> s[i].id == catalog_order()[i] && #[trigger] info_ok(s[i])
}

/// The full catalog, in declaration order.
pub fn catalog() -> (r: Vec<RegisterInfo>)
    ensures
        catalog_entries_ok(r@),
{
    let ids = catalog_ids();
    let mut out: Vec<RegisterInfo> = Vec::new();
    let n = ids.len();
    let mut i: usize = 0;
    while i < n
        invariant
            n == ids@.len(),
            ids@ == catalog_order(),
            i <= n,
            out@.len() == i,
            forall|j: int|
                0 <= j < i ==> out@[j].id == catalog_order()[j] && #[trigger] info_ok(out@[j]),
        decreases n - i,
    {
        let info = register_info_by_id(&ids[i]);
        let ghost pre = out@;
        out.push(info);
        proof {
            assert(out@[i as int] == info);
            assert(forall|j: int| 0 <= j < i ==> out@[j] == pre[j]);
            assert forall|j: int| 0 <= j < i + 1 implies out@[j].id == catalog_order()[j]
                && #[trigger] info_ok(out@[j]) by {
                if j < i {
                    assert(out@[j] == pre[j]);
                    assert(info_ok(pre[j]));
                } else {
                    assert(out@[j] == info);
                }
            }
        }
        i = i + 1;
    }
    assert(catalog_entries_ok(out@));
    out
}

/// Look one register up by its identifier.

pub fn register_info_by_id(id: &RegisterId) -> (r: RegisterInfo)
    ensures
        r.id == *id,
        info_ok(r),
{
    match id {
        RegisterId::rax => RegisterInfo { id: RegisterId::rax, name: "rax", dwarf_id: Some(0), size: 8, offset: 80, type_: RegisterType::General, format: RegisterFormat::Uint },
        RegisterId::rdx => RegisterInfo { id: RegisterId::rdx, name: "rdx", dwarf_id: Some(1), size: 8, offset: 96, type_: RegisterType::General, format: RegisterFormat::Uint },
        RegisterId::rcx => RegisterInfo { id: RegisterId::rcx, name: "rcx", dwarf_id: Some(2), size: 8, offset: 88, type_: RegisterType::General, format: RegisterFormat::Uint },
        RegisterId::rbx => RegisterInfo { id: RegisterId::rbx, name: "rbx", dwarf_id: Some(3), size: 8, offset: 40, type_: RegisterType::General, format: RegisterFormat::Uint },
        RegisterId::rsi => RegisterInfo { id: RegisterId::rsi, name: "rsi", dwarf_id: Some(4), size: 8, offset: 104, type_: RegisterType::General, format: RegisterFormat::Uint },
        RegisterId::rdi => RegisterInfo { id: RegisterId::rdi, name: "rdi", dwarf_id: Some(5), size: 8, offset: 112, type_: RegisterType::General, format: RegisterFormat::Uint },
        RegisterId::rbp => RegisterInfo { id: RegisterId::rbp, name: "rbp", dwarf_id: Some(6), size: 8, offset: 32, type_: RegisterType::General, format: RegisterFormat::Uint },
        RegisterId::rsp => RegisterInfo { id: RegisterId::rsp, name: "rsp", dwarf_id: Some(7), size: 8, offset: 152, type_: RegisterType::General, format: RegisterFormat::Uint },
        RegisterId::r8 => RegisterInfo { id: RegisterId::r8, name: "r8", dwarf_id: Some(8), size: 8, offset: 72, type_: RegisterType::General, format: RegisterFormat::Uint },
        RegisterId::r9 => RegisterInfo { id: RegisterId::r9, name: "r9", dwarf_id: Some(9), size: 8, offset: 64, type_: RegisterType::General, format: RegisterFormat::Uint },
        RegisterId::r10 => RegisterInfo { id: RegisterId::r10, name: "r10", dwarf_id: Some(10), size: 8, offset: 56, type_: RegisterType::General, format: RegisterFormat::Uint },
        RegisterId::r11 => RegisterInfo { id: RegisterId::r11, name: "r11", dwarf_id: Some(11), size: 8, offset: 48, type_: RegisterType::General, format: RegisterFormat::Uint },
        RegisterId::r12 => RegisterInfo { id: RegisterId::r12, name: "r12", dwarf_id: Some(12), size: 8, offset: 24, type_: RegisterType::General, format: RegisterFormat::Uint },
        RegisterId::r13 => RegisterInfo { id: RegisterId::r13, name: "r13", dwarf_id: Some(13), size: 8, offset: 16, type_: RegisterType::General, format: RegisterFormat::Uint },
        RegisterId::r14 => RegisterInfo { id: RegisterId::r14, name: "r14", dwarf_id: Some(14), size: 8, offset: 8, type_: RegisterType::General, format: RegisterFormat::Uint },
        RegisterId::r15 => RegisterInfo { id: RegisterId::r15, name: "r15", dwarf_id: Some(15), size: 8, offset: 0, type_: RegisterType::General, format: RegisterFormat::Uint },
        RegisterId::rip => RegisterInfo { id: RegisterId::rip, name: "rip", dwarf_id: Some(16), size: 8, offset: 128, type_: RegisterType::General, format: RegisterFormat::Uint },
        RegisterId::eflags => RegisterInfo { id: RegisterId::eflags, name: "eflags", dwarf_id: Some(49), size: 8, offset: 144, type_: RegisterType::General, format: RegisterFormat::Uint },
        RegisterId::cs => RegisterInfo { id: RegisterId::cs, name: "cs", dwarf_id: Some(51), size: 8, offset: 136, type_: RegisterType::General, format: RegisterFormat::Uint },
        RegisterId::fs => RegisterInfo { id: RegisterId::fs, name: "fs", dwarf_id: Some(54), size: 8, offset: 200, type_: RegisterType::General, format: RegisterFormat::Uint },
        RegisterId::gs => RegisterInfo { id: RegisterId::gs, name: "gs", dwarf_id: Some(55), size: 8, offset: 208, type_: RegisterType::General, format: RegisterFormat::Uint },
        RegisterId::ss => RegisterInfo { id: RegisterId::ss, name: "ss", dwarf_id: Some(52), size: 8, offset: 160, type_: RegisterType::General, format: RegisterFormat::Uint },
        RegisterId::ds => RegisterInfo { id: RegisterId::ds, name: "ds", dwarf_id: Some(53), size: 8, offset: 184, type_: RegisterType::General, format: RegisterFormat::Uint },
        RegisterId::es => RegisterInfo { id: RegisterId::es, name: "es", dwarf_id: Some(50), size: 8, offset: 192, type_: RegisterType::General, format: RegisterFormat::Uint },
        RegisterId::orig_rax => RegisterInfo { id: RegisterId::orig_rax, name: "orig_rax", dwarf_id: None, size: 8, offset: 120, type_: RegisterType::General, format: RegisterFormat::Uint },
        RegisterId::eax => RegisterInfo { id: RegisterId::eax, name: "eax", dwarf_id: None, size: 4, offset: 80, type_: RegisterType::SubGeneral, format: RegisterFormat::Uint },
        RegisterId::edx => RegisterInfo { id: RegisterId::edx, name: "edx", dwarf_id: None, size: 4, offset: 96, type_: RegisterType::SubGeneral, format: RegisterFormat::Uint },
        RegisterId::ecx => RegisterInfo { id: RegisterId::ecx, name: "ecx", dwarf_id: None, size: 4, offset: 88, type_: RegisterType::SubGeneral, format: RegisterFormat::Uint },
        RegisterId::ebx => RegisterInfo { id: RegisterId::ebx, name: "ebx", dwarf_id: None, size: 4, offset: 40, type_: RegisterType::SubGeneral, format: RegisterFormat::Uint },
        RegisterId::esi => RegisterInfo { id: RegisterId::esi, name: "esi", dwarf_id: None, size: 4, offset: 104, type_: RegisterType::SubGeneral, format: RegisterFormat::Uint },
        RegisterId::edi => RegisterInfo { id: RegisterId::edi, name: "edi", dwarf_id: None, size: 4, offset: 112, type_: RegisterType::SubGeneral, format: RegisterFormat::Uint },
        RegisterId::ebp => RegisterInfo { id: RegisterId::ebp, name: "ebp", dwarf_id: None, size: 4, offset: 32, type_: RegisterType::SubGeneral, format: RegisterFormat::Uint },
        RegisterId::esp => RegisterInfo { id: RegisterId::esp, name: "esp", dwarf_id: None, size: 4, offset: 152, type_: RegisterType::SubGeneral, format: RegisterFormat::Uint },
        RegisterId::r8d => RegisterInfo { id: RegisterId::r8d, name: "r8d", dwarf_id: None, size: 4, offset: 72, type_: RegisterType::SubGeneral, format: RegisterFormat::Uint },
        RegisterId::r9d => RegisterInfo { id: RegisterId::r9d, name: "r9d", dwarf_id: None, size: 4, offset: 64, type_: RegisterType::SubGeneral, format: RegisterFormat::Uint },
        RegisterId::r10d => RegisterInfo { id: RegisterId::r10d, name: "r10d", dwarf_id: None, size: 4, offset: 56, type_: RegisterType::SubGeneral, format: RegisterFormat::Uint },
        RegisterId::r11d => RegisterInfo { id: RegisterId::r11d, name: "r11d", dwarf_id: None, size: 4, offset: 48, type_: RegisterType::SubGeneral, format: RegisterFormat::Uint },
        RegisterId::r12d => RegisterInfo { id: RegisterId::r12d, name: "r12d", dwarf_id: None, size: 4, offset: 24, type_: RegisterType::SubGeneral, format: RegisterFormat::Uint },
        RegisterId::r13d => RegisterInfo { id: RegisterId::r13d, name: "r13d", dwarf_id: None, size: 4, offset: 16, type_: RegisterType::SubGeneral, format: RegisterFormat::Uint },
        RegisterId::r14d => RegisterInfo { id: RegisterId::r14d, name: "r14d", dwarf_id: None, size: 4, offset: 8, type_: RegisterType::SubGeneral, format: RegisterFormat::Uint },
        RegisterId::r15d => RegisterInfo { id: RegisterId::r15d, name: "r15d", dwarf_id: None, size: 4, offset: 0, type_: RegisterType::SubGeneral, format: RegisterFormat::Uint },
        RegisterId::ax => RegisterInfo { id: RegisterId::ax, name: "ax", dwarf_id: None, size: 2, offset: 80, type_: RegisterType::SubGeneral, format: RegisterFormat::Uint },
        RegisterId::dx => RegisterInfo { id: RegisterId::dx, name: "dx", dwarf_id: None, size: 2, offset: 96, type_: RegisterType::SubGeneral, format: RegisterFormat::Uint },
        RegisterId::cx => RegisterInfo { id: RegisterId::cx, name: "cx", dwarf_id: None, size: 2, offset: 88, type_: RegisterType::SubGeneral, format: RegisterFormat::Uint },
        RegisterId::bx => RegisterInfo { id: RegisterId::bx, name: "bx", dwarf_id: None, size: 2, offset: 40, type_: RegisterType::SubGeneral, format: RegisterFormat::Uint },
        RegisterId::si => RegisterInfo { id: RegisterId::si, name: "si", dwarf_id: None, size: 2, offset: 104, type_: RegisterType::SubGeneral, format: RegisterFormat::Uint },
        RegisterId::di => RegisterInfo { id: RegisterId::di, name: "di", dwarf_id: None, size: 2, offset: 112, type_: RegisterType::SubGeneral, format: RegisterFormat::Uint },
        RegisterId::bp => RegisterInfo { id: RegisterId::bp, name: "bp", dwarf_id: None, size: 2, offset: 32, type_: RegisterType::SubGeneral, format: RegisterFormat::Uint },
        RegisterId::sp => RegisterInfo { id: RegisterId::sp, name: "sp", dwarf_id: None, size: 2, offset: 152, type_: RegisterType::SubGeneral, format: RegisterFormat::Uint },
        RegisterId::r8w => RegisterInfo { id: RegisterId::r8w, name: "r8w", dwarf_id: None, size: 2, offset: 72, type_: RegisterType::SubGeneral, format: RegisterFormat::Uint },
        RegisterId::r9w => RegisterInfo { id: RegisterId::r9w, name: "r9w", dwarf_id: None, size: 2, offset: 64, type_: RegisterType::SubGeneral, format: RegisterFormat::Uint },
        RegisterId::r10w => RegisterInfo { id: RegisterId::r10w, name: "r10w", dwarf_id: None, size: 2, offset: 56, type_: RegisterType::SubGeneral, format: RegisterFormat::Uint },
        RegisterId::r11w => RegisterInfo { id: RegisterId::r11w, name: "r11w", dwarf_id: None, size: 2, offset: 48, type_: RegisterType::SubGeneral, format: RegisterFormat::Uint },
        RegisterId::r12w => RegisterInfo { id: RegisterId::r12w, name: "r12w", dwarf_id: None, size: 2, offset: 24, type_: RegisterType::SubGeneral, format: RegisterFormat::Uint },
        RegisterId::r13w => RegisterInfo { id: RegisterId::r13w, name: "r13w", dwarf_id: None, size: 2, offset: 16, type_: RegisterType::SubGeneral, format: RegisterFormat::Uint },
        RegisterId::r14w => RegisterInfo { id: RegisterId::r14w, name: "r14w", dwarf_id: None, size: 2, offset: 8, type_: RegisterType::SubGeneral, format: RegisterFormat::Uint },
        RegisterId::r15w => RegisterInfo { id: RegisterId::r15w, name: "r15w", dwarf_id: None, size: 2, offset: 0, type_: RegisterType::SubGeneral, format: RegisterFormat::Uint },
        RegisterId::ah => RegisterInfo { id: RegisterId::ah, name: "ah", dwarf_id: None, size: 1, offset: 80, type_: RegisterType::SubGeneral, format: RegisterFormat::Uint },
        RegisterId::dh => RegisterInfo { id: RegisterId::dh, name: "dh", dwarf_id: None, size: 1, offset: 96, type_: RegisterType::SubGeneral, format: RegisterFormat::Uint },
        RegisterId::ch => RegisterInfo { id: RegisterId::ch, name: "ch", dwarf_id: None, size: 1, offset: 88, type_: RegisterType::SubGeneral, format: RegisterFormat::Uint },
        RegisterId::bh => RegisterInfo { id: RegisterId::bh, name: "bh", dwarf_id: None, size: 1, offset: 40, type_: RegisterType::SubGeneral, format: RegisterFormat::Uint },
        RegisterId::al => RegisterInfo { id: RegisterId::al, name: "al", dwarf_id: None, size: 1, offset: 80, type_: RegisterType::SubGeneral, format: RegisterFormat::Uint },
        RegisterId::dl => RegisterInfo { id: RegisterId::dl, name: "dl", dwarf_id: None, size: 1, offset: 96, type_: RegisterType::SubGeneral, format: RegisterFormat::Uint },
        RegisterId::cl => RegisterInfo { id: RegisterId::cl, name: "cl", dwarf_id: None, size: 1, offset: 88, type_: RegisterType::SubGeneral, format: RegisterFormat::Uint },
        RegisterId::bl => RegisterInfo { id: RegisterId::bl, name: "bl", dwarf_id: None, size: 1, offset: 40, type_: RegisterType::SubGeneral, format: RegisterFormat::Uint },
        RegisterId::sil => RegisterInfo { id: RegisterId::sil, name: "sil", dwarf_id: None, size: 1, offset: 104, type_: RegisterType::SubGeneral, format: RegisterFormat::Uint },
        RegisterId::dil => RegisterInfo { id: RegisterId::dil, name: "dil", dwarf_id: None, size: 1, offset: 112, type_: RegisterType::SubGeneral, format: RegisterFormat::Uint },
        RegisterId::bpl => RegisterInfo { id: RegisterId::bpl, name: "bpl", dwarf_id: None, size: 1, offset: 32, type_: RegisterType::SubGeneral, format: RegisterFormat::Uint },
        RegisterId::spl => RegisterInfo { id: RegisterId::spl, name: "spl", dwarf_id: None, size: 1, offset: 152, type_: RegisterType::SubGeneral, format: RegisterFormat::Uint },
        RegisterId::r8b => RegisterInfo { id: RegisterId::r8b, name: "r8b", dwarf_id: None, size: 1, offset: 72, type_: RegisterType::SubGeneral, format: RegisterFormat::Uint },
        RegisterId::r9b => RegisterInfo { id: RegisterId::r9b, name: "r9b", dwarf_id: None, size: 1, offset: 64, type_: RegisterType::SubGeneral, format: RegisterFormat::Uint },
        RegisterId::r10b => RegisterInfo { id: RegisterId::r10b, name: "r10b", dwarf_id: None, size: 1, offset: 56, type_: RegisterType::SubGeneral, format: RegisterFormat::Uint },
        RegisterId::r11b => RegisterInfo { id: RegisterId::r11b, name: "r11b", dwarf_id: None, size: 1, offset: 48, type_: RegisterType::SubGeneral, format: RegisterFormat::Uint },
        RegisterId::r12b => RegisterInfo { id: RegisterId::r12b, name: "r12b", dwarf_id: None, size: 1, offset: 24, type_: RegisterType::SubGeneral, format: RegisterFormat::Uint },
        RegisterId::r13b => RegisterInfo { id: RegisterId::r13b, name: "r13b", dwarf_id: None, size: 1, offset: 16, type_: RegisterType::SubGeneral, format: RegisterFormat::Uint },
        RegisterId::r14b => RegisterInfo { id: RegisterId::r14b, name: "r14b", dwarf_id: None, size: 1, offset: 8, type_: RegisterType::SubGeneral, format: RegisterFormat::Uint },
        RegisterId::r15b => RegisterInfo { id: RegisterId::r15b, name: "r15b", dwarf_id: None, size: 1, offset: 0, type_: RegisterType::SubGeneral, format: RegisterFormat::Uint },
        RegisterId::fcw => RegisterInfo { id: RegisterId::fcw, name: "fcw", dwarf_id: Some(65), size: 2, offset: 224, type_: RegisterType::FloatingPoint, format: RegisterFormat::Uint },
        RegisterId::fsw => RegisterInfo { id: RegisterId::fsw, name: "fsw", dwarf_id: Some(66), size: 2, offset: 226, type_: RegisterType::FloatingPoint, format: RegisterFormat::Uint },
        RegisterId::ftw => RegisterInfo { id: RegisterId::ftw, name: "ftw", dwarf_id: None, size: 2, offset: 228, type_: RegisterType::FloatingPoint, format: RegisterFormat::Uint },
        RegisterId::fop => RegisterInfo { id: RegisterId::fop, name: "fop", dwarf_id: None, size: 2, offset: 230, type_: RegisterType::FloatingPoint, format: RegisterFormat::Uint },
        RegisterId::frip => RegisterInfo { id: RegisterId::frip, name: "frip", dwarf_id: None, size: 8, offset: 232, type_: RegisterType::FloatingPoint, format: RegisterFormat::Uint },
        RegisterId::frdp => RegisterInfo { id: RegisterId::frdp, name: "frdp", dwarf_id: None, size: 8, offset: 240, type_: RegisterType::FloatingPoint, format: RegisterFormat::Uint },
        RegisterId::mxcsr => RegisterInfo { id: RegisterId::mxcsr, name: "mxcsr", dwarf_id: Some(64), size: 4, offset: 248, type_: RegisterType::FloatingPoint, format: RegisterFormat::Uint },
        RegisterId::mxcsrmask => RegisterInfo { id: RegisterId::mxcsrmask, name: "mxcsrmask", dwarf_id: None, size: 4, offset: 252, type_: RegisterType::FloatingPoint, format: RegisterFormat::Uint },
        RegisterId::st0 => RegisterInfo { id: RegisterId::st0, name: "st0", dwarf_id: Some(33), size: 16, offset: 256, type_: RegisterType::FloatingPoint, format: RegisterFormat::LongDouble },
        RegisterId::st1 => RegisterInfo { id: RegisterId::st1, name: "st1", dwarf_id: Some(34), size: 16, offset: 272, type_: RegisterType::FloatingPoint, format: RegisterFormat::LongDouble },
        RegisterId::st2 => RegisterInfo { id: RegisterId::st2, name: "st2", dwarf_id: Some(35), size: 16, offset: 288, type_: RegisterType::FloatingPoint, format: RegisterFormat::LongDouble },
        RegisterId::st3 => RegisterInfo { id: RegisterId::st3, name: "st3", dwarf_id: Some(36), size: 16, offset: 304, type_: RegisterType::FloatingPoint, format: RegisterFormat::LongDouble },
        RegisterId::st4 => RegisterInfo { id: RegisterId::st4, name: "st4", dwarf_id: Some(37), size: 16, offset: 320, type_: RegisterType::FloatingPoint, format: RegisterFormat::LongDouble },
        RegisterId::st5 => RegisterInfo { id: RegisterId::st5, name: "st5", dwarf_id: Some(38), size: 16, offset: 336, type_: RegisterType::FloatingPoint, format: RegisterFormat::LongDouble },
        RegisterId::st6 => RegisterInfo { id: RegisterId::st6, name: "st6", dwarf_id: Some(39), size: 16, offset: 352, type_: RegisterType::FloatingPoint, format: RegisterFormat::LongDouble },
        RegisterId::st7 => RegisterInfo { id: RegisterId::st7, name: "st7", dwarf_id: Some(40), size: 16, offset: 368, type_: RegisterType::FloatingPoint, format: RegisterFormat::LongDouble },
        RegisterId::mm0 => RegisterInfo { id: RegisterId::mm0, name: "mm0", dwarf_id: Some(41), size: 8, offset: 256, type_: RegisterType::FloatingPoint, format: RegisterFormat::Vector },
        RegisterId::mm1 => RegisterInfo { id: RegisterId::mm1, name: "mm1", dwarf_id: Some(42), size: 8, offset: 272, type_: RegisterType::FloatingPoint, format: RegisterFormat::Vector },
        RegisterId::mm2 => RegisterInfo { id: RegisterId::mm2, name: "mm2", dwarf_id: Some(43), size: 8, offset: 288, type_: RegisterType::FloatingPoint, format: RegisterFormat::Vector },
        RegisterId::mm3 => RegisterInfo { id: RegisterId::mm3, name: "mm3", dwarf_id: Some(44), size: 8, offset: 304, type_: RegisterType::FloatingPoint, format: RegisterFormat::Vector },
        RegisterId::mm4 => RegisterInfo { id: RegisterId::mm4, name: "mm4", dwarf_id: Some(45), size: 8, offset: 320, type_: RegisterType::FloatingPoint, format: RegisterFormat::Vector },
        RegisterId::mm5 => RegisterInfo { id: RegisterId::mm5, name: "mm5", dwarf_id: Some(46), size: 8, offset: 336, type_: RegisterType::FloatingPoint, format: RegisterFormat::Vector },
        RegisterId::mm6 => RegisterInfo { id: RegisterId::mm6, name: "mm6", dwarf_id: Some(47), size: 8, offset: 352, type_: RegisterType::FloatingPoint, format: RegisterFormat::Vector },
        RegisterId::mm7 => RegisterInfo { id: RegisterId::mm7, name: "mm7", dwarf_id: Some(48), size: 8, offset: 368, type_: RegisterType::FloatingPoint, format: RegisterFormat::Vector },
        RegisterId::xmm0 => RegisterInfo { id: RegisterId::xmm0, name: "xmm0", dwarf_id: Some(17), size: 16, offset: 384, type_: RegisterType::FloatingPoint, format: RegisterFormat::Vector },
        RegisterId::xmm1 => RegisterInfo { id: RegisterId::xmm1, name: "xmm1", dwarf_id: Some(18), size: 16, offset: 400, type_: RegisterType::FloatingPoint, format: RegisterFormat::Vector },
        RegisterId::xmm2 => RegisterInfo { id: RegisterId::xmm2, name: "xmm2", dwarf_id: Some(19), size: 16, offset: 416, type_: RegisterType::FloatingPoint, format: RegisterFormat::Vector },
        RegisterId::xmm3 => RegisterInfo { id: RegisterId::xmm3, name: "xmm3", dwarf_id: Some(20), size: 16, offset: 432, type_: RegisterType::FloatingPoint, format: RegisterFormat::Vector },
        RegisterId::xmm4 => RegisterInfo { id: RegisterId::xmm4, name: "xmm4", dwarf_id: Some(21), size: 16, offset: 448, type_: RegisterType::FloatingPoint, format: RegisterFormat::Vector },
        RegisterId::xmm5 => RegisterInfo { id: RegisterId::xmm5, name: "xmm5", dwarf_id: Some(22), size: 16, offset: 464, type_: RegisterType::FloatingPoint, format: RegisterFormat::Vector },
        RegisterId::xmm6 => RegisterInfo { id: RegisterId::xmm6, name: "xmm6", dwarf_id: Some(23), size: 16, offset: 480, type_: RegisterType::FloatingPoint, format: RegisterFormat::Vector },
        RegisterId::xmm7 => RegisterInfo { id: RegisterId::xmm7, name: "xmm7", dwarf_id: Some(24), size: 16, offset: 496, type_: RegisterType::FloatingPoint, format: RegisterFormat::Vector },
        RegisterId::xmm8 => RegisterInfo { id: RegisterId::xmm8, name: "xmm8", dwarf_id: Some(25), size: 16, offset: 512, type_: RegisterType::FloatingPoint, format: RegisterFormat::Vector },
        RegisterId::xmm9 => RegisterInfo { id: RegisterId::xmm9, name: "xmm9", dwarf_id: Some(26), size: 16, offset: 528, type_: RegisterType::FloatingPoint, format: RegisterFormat::Vector },
        RegisterId::xmm10 => RegisterInfo { id: RegisterId::xmm10, name: "xmm10", dwarf_id: Some(27), size: 16, offset: 544, type_: RegisterType::FloatingPoint, format: RegisterFormat::Vector },
        RegisterId::xmm11 => RegisterInfo { id: RegisterId::xmm11, name: "xmm11", dwarf_id: Some(28), size: 16, offset: 560, type_: RegisterType::FloatingPoint, format: RegisterFormat::Vector },
        RegisterId::xmm12 => RegisterInfo { id: RegisterId::xmm12, name: "xmm12", dwarf_id: Some(29), size: 16, offset: 576, type_: RegisterType::FloatingPoint, format: RegisterFormat::Vector },
        RegisterId::xmm13 => RegisterInfo { id: RegisterId::xmm13, name: "xmm13", dwarf_id: Some(30), size: 16, offset: 592, type_: RegisterType::FloatingPoint, format: RegisterFormat::Vector },
        RegisterId::xmm14 => RegisterInfo { id: RegisterId::xmm14, name: "xmm14", dwarf_id: Some(31), size: 16, offset: 608, type_: RegisterType::FloatingPoint, format: RegisterFormat::Vector },
        RegisterId::xmm15 => RegisterInfo { id: RegisterId::xmm15, name: "xmm15", dwarf_id: Some(32), size: 16, offset: 624, type_: RegisterType::FloatingPoint, format: RegisterFormat::Vector },
        RegisterId::dr0 => RegisterInfo { id: RegisterId::dr0, name: "dr0", dwarf_id: None, size: 8, offset: 848, type_: RegisterType::Debug, format: RegisterFormat::Uint },
        RegisterId::dr1 => RegisterInfo { id: RegisterId::dr1, name: "dr1", dwarf_id: None, size: 8, offset: 856, type_: RegisterType::Debug, format: RegisterFormat::Uint },
        RegisterId::dr2 => RegisterInfo { id: RegisterId::dr2, name: "dr2", dwarf_id: None, size: 8, offset: 864, type_: RegisterType::Debug, format: RegisterFormat::Uint },
        RegisterId::dr3 => RegisterInfo { id: RegisterId::dr3, name: "dr3", dwarf_id: None, size: 8, offset: 872, type_: RegisterType::Debug, format: RegisterFormat::Uint },
        RegisterId::dr4 => RegisterInfo { id: RegisterId::dr4, name: "dr4", dwarf_id: None, size: 8, offset: 880, type_: RegisterType::Debug, format: RegisterFormat::Uint },
        RegisterId::dr5 => RegisterInfo { id: RegisterId::dr5, name: "dr5", dwarf_id: None, size: 8, offset: 888, type_: RegisterType::Debug, format: RegisterFormat::Uint },
        RegisterId::dr6 => RegisterInfo { id: RegisterId::dr6, name: "dr6", dwarf_id: None, size: 8, offset: 896, type_: RegisterType::Debug, format: RegisterFormat::Uint },
        RegisterId::dr7 => RegisterInfo { id: RegisterId::dr7, name: "dr7", dwarf_id: None, size: 8, offset: 904, type_: RegisterType::Debug, format: RegisterFormat::Uint },
    }
}

/// Look one register up by its human name.
pub fn register_info_by_name(name: &str) -> (r: DrbugResult<RegisterInfo>)
    ensures
        r is Ok <==> exists|i: int|
            0 <= i < catalog_order().len() && reg_name_view(#[trigger] catalog_order()[i])
                == name@,
        r is Ok ==> info_ok(r->Ok_0) && reg_name_view(r->Ok_0.id) == name@,
        r is Err ==> (r->Err_0 matches DrbugError::InvalidRegisterName(m) && m@ == name@),
{
    let infos = catalog();
    let n = infos.len();
    let mut i: usize = 0;
    while i < n
        invariant
            catalog_entries_ok(infos@),
            n == infos@.len(),
            i <= n,
            forall|j: int|
                0 <= j < i ==> reg_name_view(#[trigger] catalog_order()[j]) != name@,
        decreases n - i,
    {
        let info = &infos[i];
        proof {
            assert(info_ok(infos@[i as int]));
        }
        if str_eq(info.name, name) {
            return Ok(*info);
        }
        i = i + 1;
    }
    Err(DrbugError::InvalidRegisterName(name.to_owned()))
}

} // verus!
