//! Typed register values and their 128-bit little-endian byte images.
//!
//! Two values are equal exactly when their zero-padded 16-byte images are
//! equal, so a `U64` and a `B128` holding the same bytes compare equal.

use vstd::bytes::{
    spec_u16_to_le_bytes, spec_u32_to_le_bytes, spec_u64_to_le_bytes,
};
use vstd::prelude::*;

use crate::bytes::{put_u16_at, put_u32_at, put_u64_at};

verus! {

broadcast use vstd::std_specs::vec::group_vec_axioms;

/// A value read from or written to a register.
///
/// Floating-point variants carry the raw IEEE-754 bit pattern, so that the
/// byte image below is a plain function of the fields.
#[derive(Clone, Copy, Debug)]
pub enum RegisterValue {
    U8(u8),
    U16(u16),
    U32(u32),
    U64(u64),
    I8(i8),
    I16(i16),
    I32(i32),
    I64(i64),
    /// A 32-bit float, as its bit pattern.
    F32(u32),
    /// A 64-bit float, as its bit pattern.
    F64(u64),
    B64([u8; 8]),
    B128([u8; 16]),
}

/// `s` extended with zero bytes up to 16.
pub open spec fn zero_pad16(s: Seq<u8>) -> Seq<u8>
    recommends
        s.len() <= 16,
{
    s + Seq::new((16 - s.len()) as nat, |i: int| 0u8)
}

impl RegisterValue {
    /// The 16-byte little-endian image: the value's natural bytes, zero-padded.
    pub open spec fn spec_image(self) -> Seq<u8> {
        match self {
            RegisterValue::U8(x) => zero_pad16(seq![x]),
            RegisterValue::U16(x) => zero_pad16(spec_u16_to_le_bytes(x)),
            RegisterValue::U32(x) => zero_pad16(spec_u32_to_le_bytes(x)),
            RegisterValue::U64(x) => zero_pad16(spec_u64_to_le_bytes(x)),
            RegisterValue::I8(x) => zero_pad16(seq![x as u8]),
            RegisterValue::I16(x) => zero_pad16(spec_u16_to_le_bytes(x as u16)),
            RegisterValue::I32(x) => zero_pad16(spec_u32_to_le_bytes(x as u32)),
            RegisterValue::I64(x) => zero_pad16(spec_u64_to_le_bytes(x as u64)),
            RegisterValue::F32(b) => zero_pad16(spec_u32_to_le_bytes(b)),
            RegisterValue::F64(b) => zero_pad16(spec_u64_to_le_bytes(b)),
            RegisterValue::B64(a) => zero_pad16(a@),
            RegisterValue::B128(a) => a@,
        }
    }

    /// The value's natural width in bytes.
    pub open spec fn spec_size(self) -> usize {
        match self {
            RegisterValue::U8(_) => 1usize,
            RegisterValue::U16(_) => 2usize,
            RegisterValue::U32(_) => 4usize,
            RegisterValue::U64(_) => 8usize,
            RegisterValue::I8(_) => 1usize,
            RegisterValue::I16(_) => 2usize,
            RegisterValue::I32(_) => 4usize,
            RegisterValue::I64(_) => 8usize,
            RegisterValue::F32(_) => 4usize,
            RegisterValue::F64(_) => 8usize,
            RegisterValue::B64(_) => 8usize,
            RegisterValue::B128(_) => 16usize,
        }
    }

    /// The value's natural width in bytes.
    pub fn size(&self) -> (r: usize)
        ensures
            r == self.spec_size(),
    {
        match self {
            RegisterValue::U8(_) => 1,
            RegisterValue::U16(_) => 2,
            RegisterValue::U32(_) => 4,
            RegisterValue::U64(_) => 8,
            RegisterValue::I8(_) => 1,
            RegisterValue::I16(_) => 2,
            RegisterValue::I32(_) => 4,
            RegisterValue::I64(_) => 8,
            RegisterValue::F32(_) => 4,
            RegisterValue::F64(_) => 8,
            RegisterValue::B64(_) => 8,
            RegisterValue::B128(_) => 16,
        }
    }

    /// Whether the value is one of the float variants.
    pub fn is_floating_point(&self) -> (r: bool)
        ensures
            r == (self is F32 || self is F64),
    {
        match self {
            RegisterValue::F32(_) => true,
            RegisterValue::F64(_) => true,
            _ => false,
        }
    }

    /// Whether the value is one of the signed integer variants.
    pub fn is_signed(&self) -> (r: bool)
        ensures
            r == (self is I8 || self is I16 || self is I32 || self is I64),
    {
        match self {
            RegisterValue::I8(_) => true,
            RegisterValue::I16(_) => true,
            RegisterValue::I32(_) => true,
            RegisterValue::I64(_) => true,
            _ => false,
        }
    }

    /// The 16-byte little-endian image of the value, zero-padded.
    pub fn to_bytes128(&self) -> (r: Vec<u8>)
        ensures
            r@ == self.spec_image(),
            r@.len() == 16,
    {
        let mut out = zero_vec16();
        match self {
            RegisterValue::U8(x) => {
                out[0] = *x;
                assert(out@ =~= self.spec_image());
            },
            RegisterValue::U16(x) => {
                put_u16_at(&mut out, 0, *x);
                proof {
                    vstd::bytes::lemma_auto_spec_u16_to_from_le_bytes();
                    assert(out@ =~= self.spec_image());
                }
            },
            RegisterValue::U32(x) => {
                put_u32_at(&mut out, 0, *x);
                proof {
                    vstd::bytes::lemma_auto_spec_u32_to_from_le_bytes();
                    assert(out@ =~= self.spec_image());
                }
            },
            RegisterValue::U64(x) => {
                put_u64_at(&mut out, 0, *x);
                proof {
                    vstd::bytes::lemma_auto_spec_u64_to_from_le_bytes();
                    assert(out@ =~= self.spec_image());
                }
            },
            RegisterValue::I8(x) => {
                out[0] = *x as u8;
                assert(out@ =~= self.spec_image());
            },
            RegisterValue::I16(x) => {
                put_u16_at(&mut out, 0, *x as u16);
                proof {
                    vstd::bytes::lemma_auto_spec_u16_to_from_le_bytes();
                    assert(out@ =~= self.spec_image());
                }
            },
            RegisterValue::I32(x) => {
                put_u32_at(&mut out, 0, *x as u32);
                proof {
                    vstd::bytes::lemma_auto_spec_u32_to_from_le_bytes();
                    assert(out@ =~= self.spec_image());
                }
            },
            RegisterValue::I64(x) => {
                put_u64_at(&mut out, 0, *x as u64);
                proof {
                    vstd::bytes::lemma_auto_spec_u64_to_from_le_bytes();
                    assert(out@ =~= self.spec_image());
                }
            },
            RegisterValue::F32(b) => {
                put_u32_at(&mut out, 0, *b);
                proof {
                    vstd::bytes::lemma_auto_spec_u32_to_from_le_bytes();
                    assert(out@ =~= self.spec_image());
                }
            },
            RegisterValue::F64(b) => {
                put_u64_at(&mut out, 0, *b);
                proof {
                    vstd::bytes::lemma_auto_spec_u64_to_from_le_bytes();
                    assert(out@ =~= self.spec_image());
                }
            },
            RegisterValue::B64(a) => {
                let mut i: usize = 0;
                while i < 8
                    invariant
                        i <= 8,
                        a@.len() == 8,
                        out@.len() == 16,
                        forall|j: int| 0 <= j < i ==> out@[j] == a@[j],
                        forall|j: int| i <= j < 16 ==> out@[j] == 0u8,
                    decreases 8 - i,
                {
                    out[i] = a[i];
                    i = i + 1;
                }
                assert(out@ =~= self.spec_image());
            },
            RegisterValue::B128(a) => {
                let mut i: usize = 0;
                while i < 16
                    invariant
                        i <= 16,
                        a@.len() == 16,
                        out@.len() == 16,
                        forall|j: int| 0 <= j < i ==> out@[j] == a@[j],
                    decreases 16 - i,
                {
                    out[i] = a[i];
                    i = i + 1;
                }
                assert(out@ =~= self.spec_image());
            },
        }
        out
    }
}

/// A fresh vector of 16 zero bytes.
pub(crate) fn zero_vec16() -> (r: Vec<u8>)
    ensures
        r@ == Seq::new(16, |i: int| 0u8),
{
    let mut out: Vec<u8> = Vec::new();
    let mut i: usize = 0;
    while i < 16
        invariant
            i <= 16,
            out@ =~= Seq::new(i as nat, |j: int| 0u8),
        decreases 16 - i,
    {
        out.push(0u8);
        i = i + 1;
    }
    assert(out@ =~= Seq::new(16, |i: int| 0u8));
    out
}

/// Byte-wise equality of two vectors.
pub fn bytes_eq(a: &Vec<u8>, b: &Vec<u8>) -> (r: bool)
    ensures
        r == (a@ == b@),
{
    if a.len() != b.len() {
        proof {
            assert(a@.len() != b@.len());
            assert(a@ != b@);
        }
        return false;
    }
    let n = a.len();
    let mut i: usize = 0;
    while i < n
        invariant
            n == a@.len(),
            n == b@.len(),
            i <= n,
            forall|j: int| 0 <= j < i ==> a@[j] == b@[j],
        decreases n - i,
    {
        if a[i] != b[i] {
            proof {
                assert(a@[i as int] != b@[i as int]);
            }
            return false;
        }
        i = i + 1;
    }
    proof {
        assert(a@ =~= b@);
    }
    true
}

impl PartialEq for RegisterValue {
    /// Values compare equal when their 16-byte zero-padded images agree.
    fn eq(&self, other: &Self) -> (r: bool) {
        let a = self.to_bytes128();
        let b = other.to_bytes128();
        bytes_eq(&a, &b)
    }
}

impl vstd::std_specs::cmp::PartialEqSpecImpl for RegisterValue {
    open spec fn obeys_eq_spec() -> bool {
        true
    }

    open spec fn eq_spec(&self, other: &Self) -> bool {
        self.spec_image() == other.spec_image()
    }
}

} // verus!
