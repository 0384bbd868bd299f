//! Virtual addresses in the tracee's address space.

use vstd::prelude::*;
use vstd::string::StringSliceAdditionalSpecFns;

use crate::error::{DrbugError, DrbugResult};
use crate::parse::{accumulate_digits, all_digits, radix_val, strip_plus};
use crate::syscalls::string_push;

verus! {

/// A 64-bit virtual address with ordered, hashable identity.
#[derive(Clone, Copy, Debug, PartialEq, Eq, Hash, PartialOrd, Ord, Structural)]
pub struct VirtAddr(pub u64);

impl VirtAddr {
    /// The address `size` bytes above `self`.
    pub fn add(&self, size: usize) -> (r: Self)
        requires
            self.0 + size <= u64::MAX,
        ensures
            r.0 == self.0 + size,
    {
        VirtAddr(self.0 + size as u64)
    }

    /// Step one byte down.
    pub fn decrement(&mut self)
        requires
            old(self).0 >= 1,
        ensures
            final(self).0 == old(self).0 - 1,
    {
        self.0 = self.0 - 1;
    }

    /// The distance down to `other`: `Some(self - other)` when `other` is not
    /// above `self`, `None` otherwise.
    pub fn delta(&self, other: VirtAddr) -> (r: Option<usize>)
        ensures
            self.0 >= other.0 ==> r == Some((self.0 - other.0) as usize),
            self.0 < other.0 ==> r is None,
    {
        if self.0 >= other.0 {
            Some((self.0 - other.0) as usize)
        } else {
            None
        }
    }
}

/// A hex address literal with its optional `0x` prefix removed.
pub open spec fn strip_hex_prefix(s: Seq<u8>) -> Seq<u8> {
    if s.len() >= 2 && s[0] == 48 && s[1] == 120 {
        s.skip(2)
    } else {
        s
    }
}

/// The digit string of a hex address literal.
pub open spec fn hex_digits_of(s: Seq<u8>) -> Seq<u8> {
    strip_plus(strip_hex_prefix(s))
}

/// Whether a hex address literal is valid: a nonempty hex digit string whose
/// value fits 64 bits.
pub open spec fn hex_parse_ok(s: Seq<u8>) -> bool {
    &&& hex_digits_of(s).len() > 0
    &&& all_digits(hex_digits_of(s), 16)
    &&& radix_val(hex_digits_of(s), 16) <= u64::MAX
}

/// The lowercase hex digit for one value below 16.
pub open spec fn hex_digit_char(n: int) -> char {
    if n == 0 {
        '0'
    } else if n == 1 {
        '1'
    } else if n == 2 {
        '2'
    } else if n == 3 {
        '3'
    } else if n == 4 {
        '4'
    } else if n == 5 {
        '5'
    } else if n == 6 {
        '6'
    } else if n == 7 {
        '7'
    } else if n == 8 {
        '8'
    } else if n == 9 {
        '9'
    } else if n == 10 {
        'a'
    } else if n == 11 {
        'b'
    } else if n == 12 {
        'c'
    } else if n == 13 {
        'd'
    } else if n == 14 {
        'e'
    } else {
        'f'
    }
}

/// An address's textual form: `0x` and 16 lowercase hex digits, highest
/// nibble first.
pub open spec fn hex_string_of(v: u64) -> Seq<char> {
    seq!['0', 'x'] + Seq::new(16, |i: int| hex_digit_char(((v >> (((15 - i) * 4) as u64)) & 0xf) as int))
}

/// The lowercase hex digit for one nibble.
fn hex_digit(nib: u8) -> (c: char)
    requires
        nib < 16,
    ensures
        c == hex_digit_char(nib as int),
{
    if nib == 0 {
        '0'
    } else if nib == 1 {
        '1'
    } else if nib == 2 {
        '2'
    } else if nib == 3 {
        '3'
    } else if nib == 4 {
        '4'
    } else if nib == 5 {
        '5'
    } else if nib == 6 {
        '6'
    } else if nib == 7 {
        '7'
    } else if nib == 8 {
        '8'
    } else if nib == 9 {
        '9'
    } else if nib == 10 {
        'a'
    } else if nib == 11 {
        'b'
    } else if nib == 12 {
        'c'
    } else if nib == 13 {
        'd'
    } else if nib == 14 {
        'e'
    } else {
        'f'
    }
}

impl VirtAddr {
    /// Parse an address from hexadecimal text with an optional `0x` prefix.
    pub fn from_hex_str(s: &str) -> (r: DrbugResult<VirtAddr>)
        ensures
            r is Ok <==> hex_parse_ok(s.spec_bytes()),
            r is Ok ==> r->Ok_0.0 == radix_val(hex_digits_of(s.spec_bytes()), 16),
            r is Err ==> (r->Err_0 matches DrbugError::Parse(m) && m@ == s@),
    {
        let b = s.as_bytes();
        let rest = if b.len() >= 2 && b[0] == 48 && b[1] == 120 {
            vstd::slice::slice_subrange(b, 2, b.len())
        } else {
            b
        };
        proof {
            assert(rest@ =~= strip_hex_prefix(b@));
        }
        let digits = if rest.len() >= 1 && rest[0] == 43 {
            vstd::slice::slice_subrange(rest, 1, rest.len())
        } else {
            rest
        };
        proof {
            assert(rest@.skip(1) =~= rest@.drop_first());
            assert(digits@ == hex_digits_of(b@));
        }
        match accumulate_digits(digits, 16, u64::MAX) {
            Ok(v) => Ok(VirtAddr(v)),
            Err(_) => Err(DrbugError::Parse(s.to_owned())),
        }
    }

    /// The address's textual form: `0x` and 16 lowercase hex digits.
    pub fn to_hex_string(&self) -> (r: String)
        ensures
            r@ == hex_string_of(self.0),
    {
        let v = self.0;
        let mut out = String::new();
        string_push(&mut out, '0');
        string_push(&mut out, 'x');
        let mut i: usize = 0;
        while i < 16
            invariant
                i <= 16,
                v == self.0,
                out@ =~= seq!['0', 'x'] + Seq::new(
                    i as nat,
                    |j: int| hex_digit_char(((v >> (((15 - j) * 4) as u64)) & 0xf) as int),
                ),
            decreases 16 - i,
        {
            let sh: u64 = ((15 - i) * 4) as u64;
            let nib_w = (v >> sh) & 0xf;
            proof {
                assert((v >> sh) & 0xf < 16) by (bit_vector);
            }
            let nib = nib_w as u8;
            let c = hex_digit(nib);
            string_push(&mut out, c);
            proof {
                assert(out@ =~= seq!['0', 'x'] + Seq::new(
                    (i + 1) as nat,
                    |j: int| hex_digit_char(((v >> (((15 - j) * 4) as u64)) & 0xf) as int),
                ));
            }
            i = i + 1;
        }
        proof {
            assert(out@ =~= hex_string_of(self.0));
        }
        out
    }
}

} // verus!
