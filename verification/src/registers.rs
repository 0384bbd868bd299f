//! The register cache: an owned byte copy of the kernel user-area record for
//! one tracee, with format-aware reads and typed, widening writes.

use vstd::bytes::{
    spec_u16_from_le_bytes, spec_u32_from_le_bytes, spec_u64_from_le_bytes,
    spec_u16_to_le_bytes, spec_u32_to_le_bytes, spec_u64_to_le_bytes, u64_to_le_bytes,
};
use vstd::prelude::*;

use crate::bytes::{get_u16_at, get_u32_at, get_u64_at};
use crate::error::{DrbugError, DrbugResult, Empty};
use crate::float_bits::promote_f32_bits;
use crate::float_bits::promote_f32;
use crate::reg_catalog::{
    RegisterFormat, RegisterId, RegisterInfo, RegisterType, USER_AREA_SIZE, catalog,
    catalog_entries_ok, catalog_order, info_ok, lemma_catalog_fits, reg_format, reg_name_view,
    reg_offset, reg_size, reg_type,
};
use crate::reg_value::{RegisterValue, zero_pad16, zero_vec16};

verus! {

broadcast use vstd::std_specs::vec::group_vec_axioms;

/// The bits of the 64-bit float a float-variant value widens to.
pub open spec fn promoted_bits(v: RegisterValue) -> u64 {
    match v {
        RegisterValue::F32(b) => promote_f32_bits(b),
        RegisterValue::F64(b) => b,
        _ => 0u64,
    }
}

/// The signed variants, reinterpreted as the two's-complement image of their
/// value sign-extended to 64 bits.
pub open spec fn signed_as_u64(v: RegisterValue) -> u64 {
    match v {
        RegisterValue::I8(x) => (x as i64) as u64,
        RegisterValue::I16(x) => (x as i64) as u64,
        RegisterValue::I32(x) => (x as i64) as u64,
        RegisterValue::I64(x) => x as u64,
        _ => 0u64,
    }
}

/// The widening table: how a typed value becomes the 16-byte image written
/// into a register slot, or why it cannot.
///
/// A value wider than the register is rejected; floats promote to 64 bits for
/// a `double_float` slot and are refused for a `long_double` one; signed
/// integers sign-extend to the width of a `uint` slot; everything else is the
/// value's raw little-endian image, zero-padded.
pub open spec fn widen_spec(v: RegisterValue, info: RegisterInfo) -> Result<Seq<u8>, DrbugError> {
    if v.spec_size() > info.size {
        Err(DrbugError::InvalidRegisterValue(v))
    } else if v is F32 || v is F64 {
        if info.format == RegisterFormat::DoubleFloat {
            Ok(zero_pad16(spec_u64_to_le_bytes(promoted_bits(v))))
        } else if info.format == RegisterFormat::LongDouble {
            Err(DrbugError::LongDoubleUnsupported)
        } else {
            Ok(v.spec_image())
        }
    } else if (v is I8 || v is I16 || v is I32 || v is I64) && info.format == RegisterFormat::Uint {
        if info.size == 1 || info.size == 2 || info.size == 4 || info.size == 8 {
            Ok(zero_pad16(spec_u64_to_le_bytes(signed_as_u64(v)).take(info.size as int)))
        } else {
            Err(DrbugError::InvalidRegisterSize(info.size))
        }
    } else {
        Ok(v.spec_image())
    }
}

/// Widen `val` into the 16-byte image to be written into the slot `info`
/// describes, following the widening table.
pub fn widen(val: &RegisterValue, info: &RegisterInfo) -> (r: DrbugResult<Vec<u8>>)
    ensures
        r is Ok <==> widen_spec(*val, *info) is Ok,
        r is Ok ==> r->Ok_0@ == widen_spec(*val, *info)->Ok_0 && r->Ok_0@.len() == 16,
        r is Err ==> r->Err_0 == widen_spec(*val, *info)->Err_0,
{
    if val.size() > info.size {
        return Err(DrbugError::InvalidRegisterValue(*val));
    }
    if val.is_floating_point() {
        if info.format == RegisterFormat::DoubleFloat {
            let bits: u64 = match val {
                RegisterValue::F32(b) => promote_f32(*b),
                RegisterValue::F64(b) => *b,
                _ => 0,
            };
            assert(bits == promoted_bits(*val));
            let mut out = zero_vec16();
            crate::bytes::put_u64_at(&mut out, 0, bits);
            proof {
                vstd::bytes::lemma_auto_spec_u64_to_from_le_bytes();
                assert(out@ =~= zero_pad16(spec_u64_to_le_bytes(bits)));
            }
            Ok(out)
        } else if info.format == RegisterFormat::LongDouble {
            Err(DrbugError::LongDoubleUnsupported)
        } else {
            Ok(val.to_bytes128())
        }
    } else if val.is_signed() && info.format == RegisterFormat::Uint {
        if info.size == 1 || info.size == 2 || info.size == 4 || info.size == 8 {
            let x: i64 = match val {
                RegisterValue::I8(v) => *v as i64,
                RegisterValue::I16(v) => *v as i64,
                RegisterValue::I32(v) => *v as i64,
                RegisterValue::I64(v) => *v,
                _ => 0,
            };
            assert(x as u64 == signed_as_u64(*val));
            let le = u64_to_le_bytes(x as u64);
            let mut out = zero_vec16();
            let n = info.size;
            let mut i: usize = 0;
            while i < n
                invariant
                    n <= 8,
                    le@.len() == 8,
                    le@ == spec_u64_to_le_bytes(x as u64),
                    out@.len() == 16,
                    i <= n,
                    forall|j: int| 0 <= j < i ==> out@[j] == le@[j],
                    forall|j: int| i <= j < 16 ==> out@[j] == 0u8,
                decreases n - i,
            {
                out[i] = le[i];
                i = i + 1;
            }
            proof {
                assert(out@ =~= zero_pad16(spec_u64_to_le_bytes(signed_as_u64(*val)).take(
                    info.size as int,
                )));
            }
            Ok(out)
        } else {
            Err(DrbugError::InvalidRegisterSize(info.size))
        }
    } else {
        Ok(val.to_bytes128())
    }
}

/// The formats and sizes the read path can represent.
pub open spec fn read_ok(info: RegisterInfo) -> bool {
    ||| info.format == RegisterFormat::Uint && (info.size == 1 || info.size == 2 || info.size == 4
        || info.size == 8)
    ||| info.format == RegisterFormat::DoubleFloat && info.size == 8
    ||| info.format == RegisterFormat::Vector && (info.size == 8 || info.size == 16)
}

/// The error a read of an unreadable descriptor reports.
pub open spec fn read_err(info: RegisterInfo) -> DrbugError {
    if info.format == RegisterFormat::LongDouble {
        DrbugError::LongDoubleUnsupported
    } else {
        DrbugError::InvalidRegisterSize(info.size)
    }
}

/// The 16-byte image a successful read of `info` out of `cache` denotes: the
/// register's bytes, zero-padded.
pub open spec fn read_image_spec(cache: Seq<u8>, info: RegisterInfo) -> Seq<u8> {
    zero_pad16(cache.subrange(info.offset as int, info.offset + info.size))
}

/// How many bytes of a 16-byte widened image land in the cache: the
/// descriptor's size, capped at the image's own length.
pub open spec fn patch_len(info: RegisterInfo) -> int {
    if info.size <= 16 {
        info.size as int
    } else {
        16
    }
}

/// `cache` updated by the first `patch_len(info)` bytes of the widened image
/// `w` placed at the descriptor's offset.
pub open spec fn patch_spec(cache: Seq<u8>, info: RegisterInfo, w: Seq<u8>) -> Seq<u8> {
    Seq::new(
        cache.len(),
        |i: int|
            if info.offset <= i < info.offset + patch_len(info) {
                w[i - info.offset]
            } else {
                cache[i]
            },
    )
}

/// Every 16-byte image is zero beyond the value's natural width.
pub proof fn lemma_image_tail_zero(v: RegisterValue)
    ensures
        v.spec_image().len() == 16,
        forall|i: int| v.spec_size() <= i < 16 ==> v.spec_image()[i] == 0u8,
{
    vstd::bytes::lemma_auto_spec_u16_to_from_le_bytes();
    vstd::bytes::lemma_auto_spec_u32_to_from_le_bytes();
    vstd::bytes::lemma_auto_spec_u64_to_from_le_bytes();
}

/// A widened image is zero beyond the descriptor's size, provided the
/// descriptor is one the read path can represent.
pub proof fn lemma_widened_tail_zero(v: RegisterValue, info: RegisterInfo)
    requires
        widen_spec(v, info) is Ok,
        read_ok(info),
    ensures
        widen_spec(v, info)->Ok_0.len() == 16,
        forall|i: int| info.size <= i < 16 ==> widen_spec(v, info)->Ok_0[i] == 0u8,
{
    vstd::bytes::lemma_auto_spec_u64_to_from_le_bytes();
    lemma_image_tail_zero(v);
}

/// Round-trip law for a register slot: patch the cache with the widened
/// image of `v`, read the same descriptor back, and the image of what is
/// read is exactly the widened image of `v`.
pub proof fn lemma_write_read_roundtrip(cache: Seq<u8>, info: RegisterInfo, v: RegisterValue)
    requires
        cache.len() == USER_AREA_SIZE,
        info.offset + info.size <= USER_AREA_SIZE,
        read_ok(info),
        widen_spec(v, info) is Ok,
    ensures
        read_image_spec(patch_spec(cache, info, widen_spec(v, info)->Ok_0), info) == widen_spec(
            v,
            info,
        )->Ok_0,
{
    let w = widen_spec(v, info)->Ok_0;
    lemma_widened_tail_zero(v, info);
    assert(read_image_spec(patch_spec(cache, info, w), info) =~= w);
}

/// The register cache: one tracee's kernel user-area record, owned as bytes.
///
/// Reads index the cache; they do not touch the tracee. The cache is refilled
/// on every stop and patched by the typed write path.
pub struct Registers {
    pid: i32,
    data: Vec<u8>,
}

impl Registers {
    /// The cached bytes of the user-area record.
    pub closed spec fn cache(self) -> Seq<u8> {
        self.data@
    }

    /// The tracee the cache belongs to.
    pub closed spec fn spec_pid(self) -> i32 {
        self.pid
    }

    /// The cache always spans the whole user-area record.
    pub open spec fn wf(self) -> bool {
        self.cache().len() == USER_AREA_SIZE
    }

    /// A zero-filled cache for the given tracee.
    pub fn new(pid: i32) -> (r: Self)
        ensures
            r.wf(),
            r.spec_pid() == pid,
            r.cache() == Seq::new(USER_AREA_SIZE as nat, |i: int| 0u8),
    {
        let mut data: Vec<u8> = Vec::new();
        let mut i: usize = 0;
        while i < USER_AREA_SIZE
            invariant
                i <= USER_AREA_SIZE,
                data@ =~= Seq::new(i as nat, |j: int| 0u8),
            decreases USER_AREA_SIZE - i,
        {
            data.push(0u8);
            i = i + 1;
        }
        assert(data@ =~= Seq::new(USER_AREA_SIZE as nat, |i: int| 0u8));
        Registers { pid, data }
    }

    /// Read the register `info` describes out of the cache, reinterpreting
    /// its bytes little-endian according to the descriptor's format.
    pub fn read(&self, info: &RegisterInfo) -> (r: DrbugResult<RegisterValue>)
        requires
            self.wf(),
            info.offset + info.size <= USER_AREA_SIZE,
        ensures
            r is Ok <==> read_ok(*info),
            !read_ok(*info) ==> r == Err::<RegisterValue, DrbugError>(read_err(*info)),
            r is Ok ==> r->Ok_0.spec_image() == read_image_spec(self.cache(), *info),
            info.format == RegisterFormat::Uint && info.size == 1 ==> r == Ok::<
                RegisterValue,
                DrbugError,
            >(RegisterValue::U8(self.cache()[info.offset as int])),
            info.format == RegisterFormat::Uint && info.size == 2 ==> r == Ok::<
                RegisterValue,
                DrbugError,
            >(
                RegisterValue::U16(
                    spec_u16_from_le_bytes(
                        self.cache().subrange(info.offset as int, info.offset + 2),
                    ),
                ),
            ),
            info.format == RegisterFormat::Uint && info.size == 4 ==> r == Ok::<
                RegisterValue,
                DrbugError,
            >(
                RegisterValue::U32(
                    spec_u32_from_le_bytes(
                        self.cache().subrange(info.offset as int, info.offset + 4),
                    ),
                ),
            ),
            info.format == RegisterFormat::Uint && info.size == 8 ==> r == Ok::<
                RegisterValue,
                DrbugError,
            >(
                RegisterValue::U64(
                    spec_u64_from_le_bytes(
                        self.cache().subrange(info.offset as int, info.offset + 8),
                    ),
                ),
            ),
            info.format == RegisterFormat::DoubleFloat && info.size == 8 ==> r == Ok::<
                RegisterValue,
                DrbugError,
            >(
                RegisterValue::F64(
                    spec_u64_from_le_bytes(
                        self.cache().subrange(info.offset as int, info.offset + 8),
                    ),
                ),
            ),
            info.format == RegisterFormat::Vector && info.size == 8 ==> (r matches Ok(
                RegisterValue::B64(a),
            ) && a@ == self.cache().subrange(info.offset as int, info.offset + 8)),
            info.format == RegisterFormat::Vector && info.size == 16 ==> (r matches Ok(
                RegisterValue::B128(a),
            ) && a@ == self.cache().subrange(info.offset as int, info.offset + 16)),
    {
        let off = info.offset;
        let d = &self.data;
        let r: DrbugResult<RegisterValue> = match info.format {
            RegisterFormat::Uint => {
                if info.size == 1 {
                    Ok(RegisterValue::U8(d[off]))
                } else if info.size == 2 {
                    Ok(RegisterValue::U16(get_u16_at(d, off)))
                } else if info.size == 4 {
                    Ok(RegisterValue::U32(get_u32_at(d, off)))
                } else if info.size == 8 {
                    Ok(RegisterValue::U64(get_u64_at(d, off)))
                } else {
                    Err(DrbugError::InvalidRegisterSize(info.size))
                }
            },
            RegisterFormat::DoubleFloat => {
                if info.size == 8 {
                    Ok(RegisterValue::F64(get_u64_at(d, off)))
                } else {
                    Err(DrbugError::InvalidRegisterSize(info.size))
                }
            },
            RegisterFormat::LongDouble => Err(DrbugError::LongDoubleUnsupported),
            RegisterFormat::Vector => {
                if info.size == 8 {
                    let a: [u8; 8] = [
                        d[off],
                        d[off + 1],
                        d[off + 2],
                        d[off + 3],
                        d[off + 4],
                        d[off + 5],
                        d[off + 6],
                        d[off + 7],
                    ];
                    assert(a@ =~= self.cache().subrange(info.offset as int, info.offset + 8));
                    Ok(RegisterValue::B64(a))
                } else if info.size == 16 {
                    let a: [u8; 16] = [
                        d[off],
                        d[off + 1],
                        d[off + 2],
                        d[off + 3],
                        d[off + 4],
                        d[off + 5],
                        d[off + 6],
                        d[off + 7],
                        d[off + 8],
                        d[off + 9],
                        d[off + 10],
                        d[off + 11],
                        d[off + 12],
                        d[off + 13],
                        d[off + 14],
                        d[off + 15],
                    ];
                    assert(a@ =~= self.cache().subrange(info.offset as int, info.offset + 16));
                    Ok(RegisterValue::B128(a))
                } else {
                    Err(DrbugError::InvalidRegisterSize(info.size))
                }
            },
        };
        proof {
            if read_ok(*info) {
                vstd::bytes::lemma_auto_spec_u16_to_from_le_bytes();
                vstd::bytes::lemma_auto_spec_u32_to_from_le_bytes();
                vstd::bytes::lemma_auto_spec_u64_to_from_le_bytes();
                assert(r->Ok_0.spec_image() =~= read_image_spec(self.cache(), *info));
            }
        }
        r
    }

    /// Widen `val` and patch the widened image into the cache at the
    /// descriptor's offset, truncated to the descriptor's size. The tracee is
    /// not touched; committing the patch is a separate step.
    pub fn patch_value(&mut self, info: &RegisterInfo, val: &RegisterValue) -> (r: Empty)
        requires
            old(self).wf(),
            info.offset + info.size <= USER_AREA_SIZE,
        ensures
            final(self).wf(),
            final(self).spec_pid() == old(self).spec_pid(),
            widen_spec(*val, *info) is Err ==> r == Err::<(), DrbugError>(
                widen_spec(*val, *info)->Err_0,
            ) && final(self).cache() == old(self).cache(),
            widen_spec(*val, *info) is Ok ==> r is Ok && final(self).cache() == patch_spec(
                old(self).cache(),
                *info,
                widen_spec(*val, *info)->Ok_0,
            ),
    {
        let w = match widen(val, info) {
            Ok(w) => w,
            Err(e) => {
                return Err(e);
            },
        };
        self.patch_bytes(info, &w);
        Ok(())
    }
}


/// The floating-point block of the user-area record, field for field: the
/// control words, the instruction and operand pointers, the MXCSR pair, the
/// x87/MMX stack slots and the XMM vectors.
pub struct FpRegs {
    pub cwd: u16,
    pub swd: u16,
    pub ftw: u16,
    pub fop: u16,
    pub rip: u64,
    pub rdp: u64,
    pub mxcsr: u32,
    pub mxcr_mask: u32,
    pub st_space: Vec<u32>,
    pub xmm_space: Vec<u32>,
}

impl FpRegs {
    /// The stack-slot array has 32 words and the vector array 64.
    pub open spec fn wf(&self) -> bool {
        self.st_space@.len() == 32 && self.xmm_space@.len() == 64
    }
}

/// The general-purpose block of `cache` holds exactly these 27 record words,
/// each little-endian at its kernel offset (r15 first, gs last).
pub open spec fn gpr_installed(cache: Seq<u8>, words: Seq<u64>) -> bool {
    forall|k: int|
        0 <= k < 27 ==> cache.subrange(8 * k, 8 * k + 8) == spec_u64_to_le_bytes(#[trigger] words[k])
}

/// The floating-point block of `cache` holds exactly the fields of `f`, each
/// little-endian at its kernel offset.
pub open spec fn fp_installed(cache: Seq<u8>, f: FpRegs) -> bool {
    &&& cache.subrange(224, 226) == spec_u16_to_le_bytes(f.cwd)
    &&& cache.subrange(226, 228) == spec_u16_to_le_bytes(f.swd)
    &&& cache.subrange(228, 230) == spec_u16_to_le_bytes(f.ftw)
    &&& cache.subrange(230, 232) == spec_u16_to_le_bytes(f.fop)
    &&& cache.subrange(232, 240) == spec_u64_to_le_bytes(f.rip)
    &&& cache.subrange(240, 248) == spec_u64_to_le_bytes(f.rdp)
    &&& cache.subrange(248, 252) == spec_u32_to_le_bytes(f.mxcsr)
    &&& cache.subrange(252, 256) == spec_u32_to_le_bytes(f.mxcr_mask)
    &&& forall|k: int|
        0 <= k < 32 ==> cache.subrange(256 + 4 * k, 260 + 4 * k) == spec_u32_to_le_bytes(
            #[trigger] f.st_space@[k],
        )
    &&& forall|k: int|
        0 <= k < 64 ==> cache.subrange(384 + 4 * k, 388 + 4 * k) == spec_u32_to_le_bytes(
            #[trigger] f.xmm_space@[k],
        )
}

impl Registers {
    /// Install a general-purpose block, as the 27 record words in kernel
    /// field order, into the cache. Bytes outside the block stay.
    pub fn install_gprs(&mut self, words: &Vec<u64>)
        requires
            old(self).wf(),
            words@.len() == 27,
        ensures
            final(self).wf(),
            final(self).spec_pid() == old(self).spec_pid(),
            gpr_installed(final(self).cache(), words@),
            forall|i: int|
                216 <= i < USER_AREA_SIZE ==> final(self).cache()[i] == old(self).cache()[i],
    {
        let mut k: usize = 0;
        while k < 27
            invariant
                old(self).wf(),
                words@.len() == 27,
                k <= 27,
                self.data@.len() == USER_AREA_SIZE,
                self.pid == old(self).pid,
                forall|k2: int|
                    0 <= k2 < k ==> self.data@.subrange(8 * k2, 8 * k2 + 8) == spec_u64_to_le_bytes(
                        #[trigger] words@[k2],
                    ),
                forall|i: int| 8 * k <= i < USER_AREA_SIZE ==> self.data@[i] == old(self).data@[i],
            decreases 27 - k,
        {
            let ghost pre = self.data@;
            crate::bytes::put_u64_at(&mut self.data, 8 * k, words[k]);
            proof {
                assert forall|k2: int| 0 <= k2 < k implies self.data@.subrange(8 * k2, 8 * k2 + 8)
                    == spec_u64_to_le_bytes(#[trigger] words@[k2]) by {
                    assert(self.data@.subrange(8 * k2, 8 * k2 + 8) =~= pre.subrange(
                        8 * k2,
                        8 * k2 + 8,
                    ));
                }
            }
            k = k + 1;
        }
    }

    /// Install a floating-point block into the cache. Bytes outside the block
    /// stay.
    pub fn install_fprs(&mut self, f: &FpRegs)
        requires
            old(self).wf(),
            f.wf(),
        ensures
            final(self).wf(),
            final(self).spec_pid() == old(self).spec_pid(),
            fp_installed(final(self).cache(), *f),
            forall|i: int|
                0 <= i < USER_AREA_SIZE && !(224 <= i < 640)
                    ==> final(self).cache()[i] == old(self).cache()[i],
    {
        crate::bytes::put_u16_at(&mut self.data, 224, f.cwd);
        crate::bytes::put_u16_at(&mut self.data, 226, f.swd);
        crate::bytes::put_u16_at(&mut self.data, 228, f.ftw);
        crate::bytes::put_u16_at(&mut self.data, 230, f.fop);
        crate::bytes::put_u64_at(&mut self.data, 232, f.rip);
        crate::bytes::put_u64_at(&mut self.data, 240, f.rdp);
        crate::bytes::put_u32_at(&mut self.data, 248, f.mxcsr);
        crate::bytes::put_u32_at(&mut self.data, 252, f.mxcr_mask);
        proof {
            assert(self.data@.subrange(224, 226) =~= spec_u16_to_le_bytes(f.cwd));
            assert(self.data@.subrange(226, 228) =~= spec_u16_to_le_bytes(f.swd));
            assert(self.data@.subrange(228, 230) =~= spec_u16_to_le_bytes(f.ftw));
            assert(self.data@.subrange(230, 232) =~= spec_u16_to_le_bytes(f.fop));
            assert(self.data@.subrange(232, 240) =~= spec_u64_to_le_bytes(f.rip));
            assert(self.data@.subrange(240, 248) =~= spec_u64_to_le_bytes(f.rdp));
            assert(self.data@.subrange(248, 252) =~= spec_u32_to_le_bytes(f.mxcsr));
            assert(self.data@.subrange(252, 256) =~= spec_u32_to_le_bytes(f.mxcr_mask));
        }
        let ghost scalars = self.data@;
        let mut k: usize = 0;
        while k < 32
            invariant
                f.wf(),
                k <= 32,
                self.data@.len() == USER_AREA_SIZE,
                self.pid == old(self).pid,
                forall|k2: int|
                    0 <= k2 < k ==> self.data@.subrange(256 + 4 * k2, 260 + 4 * k2)
                        == spec_u32_to_le_bytes(#[trigger] f.st_space@[k2]),
                forall|i: int|
                    0 <= i < USER_AREA_SIZE && !(256 <= i < 256 + 4 * k) ==> self.data@[i]
                        == scalars[i],
            decreases 32 - k,
        {
            let ghost pre = self.data@;
            crate::bytes::put_u32_at(&mut self.data, 256 + 4 * k, f.st_space[k]);
            proof {
                assert forall|k2: int| 0 <= k2 < k implies self.data@.subrange(
                    256 + 4 * k2,
                    260 + 4 * k2,
                ) == spec_u32_to_le_bytes(#[trigger] f.st_space@[k2]) by {
                    assert(self.data@.subrange(256 + 4 * k2, 260 + 4 * k2) =~= pre.subrange(
                        256 + 4 * k2,
                        260 + 4 * k2,
                    ));
                }
            }
            k = k + 1;
        }
        let ghost sts = self.data@;
        let mut k: usize = 0;
        while k < 64
            invariant
                f.wf(),
                k <= 64,
                self.data@.len() == USER_AREA_SIZE,
                self.pid == old(self).pid,
                forall|k2: int|
                    0 <= k2 < k ==> self.data@.subrange(384 + 4 * k2, 388 + 4 * k2)
                        == spec_u32_to_le_bytes(#[trigger] f.xmm_space@[k2]),
                forall|i: int|
                    0 <= i < USER_AREA_SIZE && !(384 <= i < 384 + 4 * k) ==> self.data@[i]
                        == sts[i],
            decreases 64 - k,
        {
            let ghost pre = self.data@;
            crate::bytes::put_u32_at(&mut self.data, 384 + 4 * k, f.xmm_space[k]);
            proof {
                assert forall|k2: int| 0 <= k2 < k implies self.data@.subrange(
                    384 + 4 * k2,
                    388 + 4 * k2,
                ) == spec_u32_to_le_bytes(#[trigger] f.xmm_space@[k2]) by {
                    assert(self.data@.subrange(384 + 4 * k2, 388 + 4 * k2) =~= pre.subrange(
                        384 + 4 * k2,
                        388 + 4 * k2,
                    ));
                }
            }
            k = k + 1;
        }
        proof {
            assert forall|k2: int| 0 <= k2 < 32 implies self.data@.subrange(
                256 + 4 * k2,
                260 + 4 * k2,
            ) == spec_u32_to_le_bytes(#[trigger] f.st_space@[k2]) by {
                assert(self.data@.subrange(256 + 4 * k2, 260 + 4 * k2) =~= sts.subrange(
                    256 + 4 * k2,
                    260 + 4 * k2,
                ));
            }
            assert(self.data@.subrange(224, 226) =~= scalars.subrange(224, 226));
            assert(self.data@.subrange(226, 228) =~= scalars.subrange(226, 228));
            assert(self.data@.subrange(228, 230) =~= scalars.subrange(228, 230));
            assert(self.data@.subrange(230, 232) =~= scalars.subrange(230, 232));
            assert(self.data@.subrange(232, 240) =~= scalars.subrange(232, 240));
            assert(self.data@.subrange(240, 248) =~= scalars.subrange(240, 248));
            assert(self.data@.subrange(248, 252) =~= scalars.subrange(248, 252));
            assert(self.data@.subrange(252, 256) =~= scalars.subrange(252, 256));
        }
    }

    /// Install one debug register, by its index in the debug-register array.
    pub fn install_debug(&mut self, index: usize, value: u64)
        requires
            old(self).wf(),
            index < 8,
        ensures
            final(self).wf(),
            final(self).spec_pid() == old(self).spec_pid(),
            final(self).cache().subrange(848 + 8 * index, 856 + 8 * index) == spec_u64_to_le_bytes(
                value,
            ),
            forall|i: int|
                0 <= i < USER_AREA_SIZE && !(848 + 8 * index <= i < 856 + 8 * index)
                    ==> final(self).cache()[i] == old(self).cache()[i],
    {
        crate::bytes::put_u64_at(&mut self.data, 848 + 8 * index, value);
    }

    /// Extract the floating-point block out of the cache, field for field:
    /// the inverse of `install_fprs`.
    pub fn extract_fprs(&self) -> (f: FpRegs)
        requires
            self.wf(),
        ensures
            f.wf(),
            fp_installed(self.cache(), f),
    {
        let mut st_space: Vec<u32> = Vec::new();
        let mut k: usize = 0;
        while k < 32
            invariant
                self.wf(),
                k <= 32,
                st_space@.len() == k,
                forall|k2: int|
                    0 <= k2 < k ==> spec_u32_to_le_bytes(#[trigger] st_space@[k2])
                        == self.cache().subrange(256 + 4 * k2, 260 + 4 * k2),
            decreases 32 - k,
        {
            let w = get_u32_at(&self.data, 256 + 4 * k);
            st_space.push(w);
            proof {
                vstd::bytes::lemma_auto_spec_u32_to_from_le_bytes();
            }
            k = k + 1;
        }
        let mut xmm_space: Vec<u32> = Vec::new();
        let mut k: usize = 0;
        while k < 64
            invariant
                self.wf(),
                k <= 64,
                xmm_space@.len() == k,
                forall|k2: int|
                    0 <= k2 < k ==> spec_u32_to_le_bytes(#[trigger] xmm_space@[k2])
                        == self.cache().subrange(384 + 4 * k2, 388 + 4 * k2),
            decreases 64 - k,
        {
            let w = get_u32_at(&self.data, 384 + 4 * k);
            xmm_space.push(w);
            proof {
                vstd::bytes::lemma_auto_spec_u32_to_from_le_bytes();
            }
            k = k + 1;
        }
        let f = FpRegs {
            cwd: get_u16_at(&self.data, 224),
            swd: get_u16_at(&self.data, 226),
            ftw: get_u16_at(&self.data, 228),
            fop: get_u16_at(&self.data, 230),
            rip: get_u64_at(&self.data, 232),
            rdp: get_u64_at(&self.data, 240),
            mxcsr: get_u32_at(&self.data, 248),
            mxcr_mask: get_u32_at(&self.data, 252),
            st_space,
            xmm_space,
        };
        proof {
            vstd::bytes::lemma_auto_spec_u16_to_from_le_bytes();
            vstd::bytes::lemma_auto_spec_u32_to_from_le_bytes();
            vstd::bytes::lemma_auto_spec_u64_to_from_le_bytes();
        }
        f
    }
}


/// Whether a catalog entry belongs to the requested group; no group selects
/// every entry.
pub open spec fn group_matches(group: Option<RegisterType>, id: RegisterId) -> bool {
    match group {
        Option::None => true,
        Option::Some(g) => reg_type(id) == g,
    }
}

/// The identifiers of the first `n` catalog entries that belong to the group,
/// in declaration order.
pub open spec fn selected_upto(group: Option<RegisterType>, n: int) -> Seq<RegisterId>
    decreases n,
{
    if n <= 0 {
        Seq::empty()
    } else {
        let prev = selected_upto(group, n - 1);
        if group_matches(group, catalog_order()[n - 1]) {
            prev.push(catalog_order()[n - 1])
        } else {
            prev
        }
    }
}

/// The identifiers of every catalog entry that belongs to the group, in
/// declaration order.
pub open spec fn selected(group: Option<RegisterType>) -> Seq<RegisterId> {
    selected_upto(group, catalog_order().len() as int)
}

/// The 16-byte image a read of the register `id` out of `cache` denotes.
pub open spec fn read_image_at(cache: Seq<u8>, id: RegisterId) -> Seq<u8> {
    zero_pad16(cache.subrange(reg_offset(id) as int, reg_offset(id) + reg_size(id)))
}

/// Every catalog entry either has the unsupported 80-bit format or is one the
/// read path can represent.
pub proof fn lemma_catalog_readable(info: RegisterInfo)
    requires
        info_ok(info),
    ensures
        info.format == RegisterFormat::LongDouble || read_ok(info),
{
}

impl Registers {
    /// Commit eight bytes of a widened image into the tracee's user area at
    /// the descriptor's offset, rounded down to the containing word, which is
    /// how the kernel's user-area poke is granular.
    fn commit_user_area(&self, offset: usize, image: &Vec<u8>) -> (r: Empty)
        requires
            image@.len() >= 8,
            offset <= USER_AREA_SIZE,
        ensures
            r is Err ==> r->Err_0 is SyscallFailed,
    {
        let word = get_u64_at(image, 0);
        let aligned = offset & !7usize;
        match crate::syscalls::ptrace_poke_user(self.pid, aligned as u64, word) {
            Ok(_) => Ok(()),
            Err(e) => Err(DrbugError::SyscallFailed("write_user", e)),
        }
    }

    /// Flush the cache's whole floating-point block to the tracee.
    fn commit_fprs(&self) -> (r: Empty)
        requires
            self.wf(),
        ensures
            r is Err ==> r->Err_0 is SyscallFailed,
    {
        let f = self.extract_fprs();
        match crate::syscalls::ptrace_setfpregs(self.pid, &f) {
            Ok(_) => Ok(()),
            Err(e) => Err(DrbugError::SyscallFailed("setregset", e)),
        }
    }

    /// Patch sixteen widened bytes into the cache at the descriptor's offset,
    /// truncated to the descriptor's size.
    fn patch_bytes(&mut self, info: &RegisterInfo, w: &Vec<u8>)
        requires
            old(self).wf(),
            info.offset + info.size <= USER_AREA_SIZE,
            w@.len() == 16,
        ensures
            final(self).wf(),
            final(self).spec_pid() == old(self).spec_pid(),
            final(self).cache() == patch_spec(old(self).cache(), *info, w@),
    {
        let n = if info.size <= 16 {
            info.size
        } else {
            16
        };
        let off = info.offset;
        let mut i: usize = 0;
        while i < n
            invariant
                off + n <= USER_AREA_SIZE,
                n <= 16,
                n == patch_len(*info),
                w@.len() == 16,
                i <= n,
                self.data@.len() == USER_AREA_SIZE,
                self.pid == old(self).pid,
                forall|j: int| 0 <= j < i ==> self.data@[off + j] == w@[j],
                forall|j: int|
                    0 <= j < USER_AREA_SIZE && !(off <= j < off + i) ==> self.data@[j] == old(self).data@[j],
            decreases n - i,
        {
            self.data[off + i] = w[i];
            i = i + 1;
        }
        proof {
            assert(self.data@ =~= patch_spec(old(self).cache(), *info, w@));
        }
    }

    /// The typed write path: widen the value, patch the cache, and commit —
    /// the whole floating-point block for a floating-point register, one
    /// aligned user-area word otherwise.
    pub fn write(&mut self, info: &RegisterInfo, val: &RegisterValue) -> (r: Empty)
        requires
            old(self).wf(),
            info.offset + info.size <= USER_AREA_SIZE,
        ensures
            final(self).wf(),
            final(self).spec_pid() == old(self).spec_pid(),
            widen_spec(*val, *info) is Err ==> r == Err::<(), DrbugError>(
                widen_spec(*val, *info)->Err_0,
            ) && final(self).cache() == old(self).cache(),
            widen_spec(*val, *info) is Ok ==> final(self).cache() == patch_spec(
                old(self).cache(),
                *info,
                widen_spec(*val, *info)->Ok_0,
            ),
            widen_spec(*val, *info) is Ok && r is Err ==> r->Err_0 is SyscallFailed,
    {
        let w = match widen(val, info) {
            Ok(w) => w,
            Err(e) => {
                return Err(e);
            },
        };
        self.patch_bytes(info, &w);
        if matches!(info.type_, RegisterType::FloatingPoint) {
            self.commit_fprs()
        } else {
            self.commit_user_area(info.offset, &w)
        }
    }

    /// Refill the whole cache from the tracee: the general-purpose block, the
    /// floating-point block, and each debug register word by word.
    pub fn load_all(&mut self) -> (r: Empty)
        requires
            old(self).wf(),
        ensures
            final(self).wf(),
            final(self).spec_pid() == old(self).spec_pid(),
            r is Err ==> r->Err_0 is SyscallFailed,
    {
        let words = match crate::syscalls::ptrace_getregs_words(self.pid) {
            Ok(w) => w,
            Err(e) => {
                return Err(DrbugError::SyscallFailed("getregs", e));
            },
        };
        self.install_gprs(&words);
        let f = match crate::syscalls::ptrace_getfpregs(self.pid) {
            Ok(f) => f,
            Err(e) => {
                return Err(DrbugError::SyscallFailed("getregset", e));
            },
        };
        self.install_fprs(&f);
        let mut i: usize = 0;
        while i < 8
            invariant
                self.wf(),
                self.spec_pid() == old(self).spec_pid(),
                i <= 8,
            decreases 8 - i,
        {
            let v = match crate::syscalls::ptrace_peek_user(self.pid, (848 + 8 * i) as u64) {
                Ok(v) => v,
                Err(e) => {
                    return Err(DrbugError::SyscallFailed("read_user", e));
                },
            };
            self.install_debug(i, v);
            i = i + 1;
        }
        Ok(())
    }

    /// Read every register of the class — every register at all, when no
    /// class is given — in the catalog's declaration order. An 80-bit slot is
    /// reported with its value absent rather than read.
    pub fn read_group(&self, group: Option<RegisterType>) -> (r: DrbugResult<
        Vec<(&'static str, Option<RegisterValue>)>,
    >)
        requires
            self.wf(),
        ensures
            r is Ok,
            r->Ok_0@.len() == selected(group).len(),
            forall|j: int|
                #![trigger selected(group)[j]]
                0 <= j < selected(group).len() ==> {
                    let id = selected(group)[j];
                    &&& r->Ok_0@[j].0@ == reg_name_view(id)
                    &&& (reg_format(id) == RegisterFormat::LongDouble ==> r->Ok_0@[j].1 is None)
                    &&& (reg_format(id) != RegisterFormat::LongDouble ==> (r->Ok_0@[j].1 matches Some(v)
                        && v.spec_image() == read_image_at(self.cache(), id)))
                },
    {
        let infos = catalog();
        let mut out: Vec<(&'static str, Option<RegisterValue>)> = Vec::new();
        let n = infos.len();
        let mut i: usize = 0;
        while i < n
            invariant
                self.wf(),
                catalog_entries_ok(infos@),
                n == infos@.len(),
                i <= n,
                out@.len() == selected_upto(group, i as int).len(),
                forall|j: int|
                    #![trigger selected_upto(group, i as int)[j]]
                    0 <= j < selected_upto(group, i as int).len() ==> {
                        let id = selected_upto(group, i as int)[j];
                        &&& out@[j].0@ == reg_name_view(id)
                        &&& (reg_format(id) == RegisterFormat::LongDouble ==> out@[j].1 is None)
                        &&& (reg_format(id) != RegisterFormat::LongDouble ==> (out@[j].1 matches Some(v)
                            && v.spec_image() == read_image_at(self.cache(), id)))
                    },
            decreases n - i,
        {
            let info = &infos[i];
            let in_group = match group {
                Option::None => true,
                Option::Some(g) => info.type_ == g,
            };
            proof {
                assert(info_ok(infos@[i as int]));
                assert(group_matches(group, catalog_order()[i as int]) == in_group);
            }
            let ghost pre = out@;
            if in_group {
                if matches!(info.format, RegisterFormat::LongDouble) {
                    out.push((info.name, None));
                } else {
                    proof {
                        lemma_catalog_fits(info.id);
                        lemma_catalog_readable(*info);
                    }
                    let v = match self.read(info) {
                        Ok(v) => v,
                        Err(_) => {
                            proof {
                                assert(false);
                            }
                            return Err(DrbugError::InvalidRegisterSize(info.size));
                        },
                    };
                    out.push((info.name, Some(v)));
                }
            }
            proof {
                let sel_new = selected_upto(group, i + 1);
                let sel_old = selected_upto(group, i as int);
                if in_group {
                    assert(sel_new == sel_old.push(catalog_order()[i as int]));
                    assert(forall|j: int| 0 <= j < pre.len() ==> out@[j] == pre[j]);
                } else {
                    assert(sel_new == sel_old);
                }
            }
            i = i + 1;
        }
        proof {
            assert(selected_upto(group, n as int) == selected(group));
        }
        Ok(out)
    }
}

} // verus!
