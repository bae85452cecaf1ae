//! Integers of arbitrary width, held as big-endian two's-complement bytes.
use vstd::prelude::*;

verus! {

/// 256 raised to the power `n`.
pub open spec fn pow256(n: nat) -> nat
    decreases n,
{
    if n == 0 {
        1
    } else {
        256 * pow256((n - 1) as nat)
    }
}

/// The number that `bytes` spell when read as big-endian base-256 digits.
pub open spec fn unsigned_value(bytes: Seq<u8>) -> nat
    decreases bytes.len(),
{
    if bytes.len() == 0 {
        0
    } else {
        unsigned_value(bytes.drop_last()) * 256 + bytes.last() as nat
    }
}

/// The number that `bytes` spell when read as a big-endian two's-complement integer.
/// No bytes at all spell zero.
pub open spec fn signed_value(bytes: Seq<u8>) -> int {
    if bytes.len() > 0 && bytes[0] >= 128 {
        unsigned_value(bytes) - pow256(bytes.len())
    } else {
        unsigned_value(bytes) as int
    }
}

/// The character of the decimal digit `d`.
pub open spec fn digit_char(d: nat) -> char {
    if d == 0 {
        '0'
    } else if d == 1 {
        '1'
    } else if d == 2 {
        '2'
    } else if d == 3 {
        '3'
    } else if d == 4 {
        '4'
    } else if d == 5 {
        '5'
    } else if d == 6 {
        '6'
    } else if d == 7 {
        '7'
    } else if d == 8 {
        '8'
    } else {
        '9'
    }
}

/// The decimal digits of `n`, most significant first, without leading zeros.
pub open spec fn digits_text(n: nat) -> Seq<char>
    decreases n,
{
    if n < 10 {
        seq![digit_char(n)]
    } else {
        digits_text(n / 10).push(digit_char(n % 10))
    }
}

/// The decimal text of `v`: a minus sign where `v` is negative, then its digits.
pub open spec fn decimal_text(v: int) -> Seq<char> {
    if v < 0 {
        seq!['-'] + digits_text((-v) as nat)
    } else {
        digits_text(v as nat)
    }
}

/// 2 to the power 64: the bound below which `WideInt::narrow` keeps a magnitude.
pub open spec fn narrow_bound() -> int {
    0x1_0000_0000_0000_0000
}

/// An integer of any width. Its bytes are its big-endian two's-complement form;
/// every byte string is a valid value, and no bytes at all are zero.
#[derive(Debug, Clone, PartialEq, Eq)]
pub struct WideInt {
    pub bytes: Vec<u8>,
}

impl View for WideInt {
    type V = int;

    open spec fn view(&self) -> int {
        signed_value(self.bytes@)
    }
}

/// Reading one more byte multiplies what was read by 256 and adds the byte.
pub proof fn lemma_unsigned_value_step(bytes: Seq<u8>, i: int)
    requires
        0 <= i < bytes.len(),
    ensures
        unsigned_value(bytes.take(i + 1)) == unsigned_value(bytes.take(i)) * 256 + bytes[i],
        pow256((i + 1) as nat) == 256 * pow256(i as nat),
        unsigned_value(bytes.take(i)) < pow256(i as nat),
        unsigned_value(bytes.take(i + 1)) < pow256((i + 1) as nat),
    decreases i,
{
    assert(bytes.take(i + 1).drop_last() =~= bytes.take(i));
    if i > 0 {
        lemma_unsigned_value_step(bytes, i - 1);
    } else {
        assert(bytes.take(0).len() == 0);
    }
}

impl WideInt {
    /// Takes the big-endian two's-complement bytes of an integer.
    pub fn from_signed_bytes_be(bytes: Vec<u8>) -> (r: WideInt)
        ensures
            r.bytes@ == bytes@,
            r@ == signed_value(bytes@),
    {
        WideInt { bytes }
    }

    /// The value itself where it lies in `-2^64 ..= 2^64 - 1`, nothing otherwise.
    pub fn narrow(&self) -> (r: Option<i128>)
        ensures
            r is Some <==> -narrow_bound() <= self@ < narrow_bound(),
            r is Some ==> r->0 == self@,
    {
        let n: usize = self.bytes.len();
        let negative: bool = n > 0 && self.bytes[0] >= 128;
        let mut acc: u128 = 0;
        let mut over: bool = false;
        let mut i: usize = 0;
        while i < n
            invariant
                n == self.bytes.len(),
                0 <= i <= n,
                acc < narrow_bound(),
                !negative && !over ==> acc == unsigned_value(self.bytes@.take(i as int)),
                !negative && over ==> unsigned_value(self.bytes@.take(i as int)) >= narrow_bound(),
                negative && !over ==> acc + unsigned_value(self.bytes@.take(i as int)) + 1
                    == pow256(i as nat),
                negative && over ==> pow256(i as nat) - 1 - unsigned_value(
                    self.bytes@.take(i as int),
                ) >= narrow_bound(),
            decreases n - i,
        {
            proof {
                lemma_unsigned_value_step(self.bytes@, i as int);
            }
            let b: u8 = self.bytes[i];
            let digit: u8 = if negative {
                255 - b
            } else {
                b
            };
            if !over {
                let next: u128 = acc * 256 + digit as u128;
                if next >= 0x1_0000_0000_0000_0000 {
                    over = true;
                } else {
                    acc = next;
                }
            }
            i = i + 1;
        }
        proof {
            assert(self.bytes@.take(n as int) =~= self.bytes@);
            if n == 0 {
                assert(unsigned_value(self.bytes@) == 0);
            }
        }
        if over {
            None
        } else if negative {
            Some(-(acc as i128) - 1)
        } else {
            Some(acc as i128)
        }
    }
    /// The decimal text of the value, exact at any width.
    pub fn to_decimal(&self) -> (s: String)
        ensures
            s@ == decimal_text(self@),
    {
        decimal_of_signed_bytes(&self.bytes)
    }
}

/// Calls `substreams::scalar::BigInt::from_signed_bytes_be` on `bytes` and formats
/// the number it gives with `to_string`. Trusted: the first reads big-endian
/// two's-complement bytes (no bytes give zero), the second writes the number in
/// decimal, with a minus sign where it is negative and without leading zeros.
#[verifier::external_body]
fn decimal_of_signed_bytes(bytes: &Vec<u8>) -> (s: String)
    ensures
        s@ == decimal_text(signed_value(bytes@)),
{
    substreams::scalar::BigInt::from_signed_bytes_be(bytes.as_slice()).to_string()
}

/// The value as a signed 32-bit integer, where it is one.
pub fn bigint_to_i32(value: &WideInt) -> (r: Option<i32>)
    ensures
        r is Some <==> i32::MIN <= value@ <= i32::MAX,
        r is Some ==> r->0 == value@,
{
    match value.narrow() {
        Some(v) => {
            if -0x8000_0000 <= v && v <= 0x7fff_ffff {
                Some(v as i32)
            } else {
                None
            }
        },
        None => None,
    }
}

/// The value as an unsigned 64-bit integer, where it is one.
pub fn bigint_to_uint64(value: &WideInt) -> (r: Option<u64>)
    ensures
        r is Some <==> 0 <= value@ <= u64::MAX,
        r is Some ==> r->0 == value@,
{
    match value.narrow() {
        Some(v) => {
            if 0 <= v {
                Some(v as u64)
            } else {
                None
            }
        },
        None => None,
    }
}

/// The value where it fits an unsigned 8-bit integer, widened to `i32`.
pub fn bigint_to_uint8(value: &WideInt) -> (r: Option<i32>)
    ensures
        r is Some <==> 0 <= value@ <= 255,
        r is Some ==> r->0 == value@,
{
    match value.narrow() {
        Some(v) => {
            if 0 <= v && v <= 255 {
                Some(v as i32)
            } else {
                None
            }
        },
        None => None,
    }
}

/// What a tick field holds for the decoded number `v`: the number itself inside
/// the signed 32-bit range, and the largest 32-bit value on either side of it.
pub open spec fn clamped_i32(v: int) -> i32 {
    if i32::MIN <= v <= i32::MAX {
        v as i32
    } else {
        i32::MAX
    }
}

/// What a fee field holds for the decoded number `v`: the number itself inside
/// the unsigned 64-bit range, and the largest 64-bit value on either side of it.
pub open spec fn clamped_u64(v: int) -> u64 {
    if 0 <= v <= u64::MAX {
        v as u64
    } else {
        u64::MAX
    }
}

/// Narrows to 32 bits; a value out of range, above or below, gives `i32::MAX`.
pub fn clamp_to_i32(value: &WideInt) -> (r: i32)
    ensures
        r == clamped_i32(value@),
{
    match bigint_to_i32(value) {
        Some(v) => v,
        None => i32::MAX,
    }
}

/// Narrows to 64 bits unsigned; a value out of range, above or below, gives `u64::MAX`.
pub fn clamp_to_u64(value: &WideInt) -> (r: u64)
    ensures
        r == clamped_u64(value@),
{
    match bigint_to_uint64(value) {
        Some(v) => v,
        None => u64::MAX,
    }
}

} // verus!
