//! Byte orders and the fixed-width byte representation of integers.
//!
//! The representation is stated arithmetically: the bytes of `n` are its
//! base-256 digits, least significant first (little-endian) or most
//! significant first (big-endian). Signed integers are taken in two's
//! complement.
use vstd::prelude::*;

verus! {

/// The order in which the bytes of a multi-byte number are laid out.
#[derive(Clone, Copy, Debug, PartialEq, Eq, Structural)]
pub enum ByteOrder {
    /// Most significant byte first.
    BigEndian,
    /// Least significant byte first.
    LittleEndian,
}

/// 256 to the power `width`: the number of values that fit in `width` bytes.
pub open spec fn radix(width: nat) -> nat
    decreases width,
{
    if width == 0 {
        1
    } else {
        256 * radix((width - 1) as nat)
    }
}

/// The `width` low base-256 digits of `n`, least significant first.
pub open spec fn le_bytes(n: nat, width: nat) -> Seq<u8>
    decreases width,
{
    if width == 0 {
        Seq::empty()
    } else {
        seq![(n % 256) as u8] + le_bytes(n / 256, (width - 1) as nat)
    }
}

/// The `width` low base-256 digits of `n`, most significant first.
pub open spec fn be_bytes(n: nat, width: nat) -> Seq<u8>
    decreases width,
{
    if width == 0 {
        Seq::empty()
    } else {
        be_bytes(n / 256, (width - 1) as nat).push((n % 256) as u8)
    }
}

/// The unsigned number with the same `width`-byte pattern as `n` in two's
/// complement.
pub open spec fn twos_complement(n: int, width: nat) -> nat {
    (n % (radix(width) as int)) as nat
}

impl ByteOrder {
    /// The `width`-byte representation of the unsigned number `n`.
    pub open spec fn bytes(self, n: nat, width: nat) -> Seq<u8> {
        match self {
            ByteOrder::BigEndian => be_bytes(n, width),
            ByteOrder::LittleEndian => le_bytes(n, width),
        }
    }

    /// The `width`-byte two's complement representation of `n`.
    pub open spec fn signed_bytes(self, n: int, width: nat) -> Seq<u8> {
        self.bytes(twos_complement(n, width), width)
    }
}

pub proof fn lemma_radix_values()
    ensures
        radix(0) == 1,
        radix(1) == 0x100,
        radix(2) == 0x1_0000,
        radix(4) == 0x1_0000_0000,
        radix(8) == 0x1_0000_0000_0000_0000,
        radix(16) == 0x1_0000_0000_0000_0000_0000_0000_0000_0000,
{
    reveal_with_fuel(radix, 17);
}

/// A representation has exactly as many bytes as were asked for.
pub proof fn lemma_bytes_len(order: ByteOrder, n: nat, width: nat)
    ensures
        order.bytes(n, width).len() == width,
    decreases width,
{
    if width > 0 {
        lemma_bytes_len(order, n / 256, (width - 1) as nat);
    }
}

/// The big-endian representation is the little-endian one read backwards.
pub proof fn lemma_be_is_le_reversed(n: nat, width: nat)
    ensures
        be_bytes(n, width) == le_bytes(n, width).reverse(),
    decreases width,
{
    if width > 0 {
        let rest = le_bytes(n / 256, (width - 1) as nat);
        lemma_be_is_le_reversed(n / 256, (width - 1) as nat);
        lemma_bytes_len(ByteOrder::LittleEndian, n / 256, (width - 1) as nat);
        assert((seq![(n % 256) as u8] + rest).reverse() =~= rest.reverse().push((n % 256) as u8));
    } else {
        assert(le_bytes(n, width).reverse() =~= Seq::<u8>::empty());
    }
}

/// Numbers that fit in `width` bytes and have the same representation are
/// the same number.
pub proof fn lemma_bytes_injective(order: ByteOrder, a: nat, b: nat, width: nat)
    requires
        a < radix(width),
        b < radix(width),
        order.bytes(a, width) == order.bytes(b, width),
    ensures
        a == b,
    decreases width,
{
    if width > 0 {
        let w = (width - 1) as nat;
        lemma_bytes_len(order, a / 256, w);
        lemma_bytes_len(order, b / 256, w);
        match order {
            ByteOrder::BigEndian => {
                let sa = be_bytes(a / 256, w).push((a % 256) as u8);
                let sb = be_bytes(b / 256, w).push((b % 256) as u8);
                assert(sa[w as int] == sb[w as int]);
                assert(sa.drop_last() =~= be_bytes(a / 256, w));
                assert(sb.drop_last() =~= be_bytes(b / 256, w));
            },
            ByteOrder::LittleEndian => {
                let sa = seq![(a % 256) as u8] + le_bytes(a / 256, w);
                let sb = seq![(b % 256) as u8] + le_bytes(b / 256, w);
                assert(sa[0] == sb[0]);
                assert(sa.subrange(1, width as int) =~= le_bytes(a / 256, w));
                assert(sb.subrange(1, width as int) =~= le_bytes(b / 256, w));
            },
        }
        lemma_bytes_injective(order, a / 256, b / 256, w);
    }
}


/// Byte `i` of the little-endian representation is digit `i` of the
/// number in base 256.
pub proof fn lemma_le_byte(n: nat, width: nat, i: nat)
    requires
        i < width,
    ensures
        le_bytes(n, width)[i as int] == ((n / radix(i)) % 256) as u8,
    decreases width,
{
    let rest = le_bytes(n / 256, (width - 1) as nat);
    lemma_bytes_len(ByteOrder::LittleEndian, n / 256, (width - 1) as nat);
    if i == 0 {
        assert(radix(0) == 1);
        assert(le_bytes(n, width)[0] == (n % 256) as u8);
    } else {
        lemma_le_byte(n / 256, (width - 1) as nat, (i - 1) as nat);
        assert(le_bytes(n, width)[i as int] == rest[i - 1]);
        lemma_digit_shift(n, (i - 1) as nat);
        assert(((i - 1) as nat) + 1 == i);
    }
}

/// Byte `i` of the big-endian representation is digit `width - 1 - i` of
/// the number in base 256.
pub proof fn lemma_be_byte(n: nat, width: nat, i: nat)
    requires
        i < width,
    ensures
        be_bytes(n, width)[i as int] == ((n / radix((width - 1 - i) as nat)) % 256) as u8,
{
    lemma_be_is_le_reversed(n, width);
    lemma_bytes_len(ByteOrder::LittleEndian, n, width);
    lemma_le_byte(n, width, (width - 1 - i) as nat);
}

/// Dropping the lowest digit and then `i` more is dropping `i + 1`.
pub proof fn lemma_digit_shift(n: nat, i: nat)
    ensures
        (n / 256) / radix(i) == n / radix(i + 1),
{
    lemma_radix_positive(i);
    vstd::arithmetic::div_mod::lemma_div_denominator(n as int, 256, radix(i) as int);
}

pub proof fn lemma_radix_positive(width: nat)
    ensures
        radix(width) > 0,
    decreases width,
{
    if width > 0 {
        lemma_radix_positive((width - 1) as nat);
    }
}

/// Signed numbers that fit in `width` bytes and have the same
/// representation are the same number.
pub proof fn lemma_signed_bytes_injective(order: ByteOrder, a: int, b: int, width: nat)
    requires
        -(radix(width) as int) <= 2 * a < radix(width),
        -(radix(width) as int) <= 2 * b < radix(width),
        order.signed_bytes(a, width) == order.signed_bytes(b, width),
    ensures
        a == b,
{
    let r = radix(width) as int;
    lemma_radix_positive(width);
    lemma_bytes_injective(order, twos_complement(a, width), twos_complement(b, width), width);
    vstd::arithmetic::div_mod::lemma_fundamental_div_mod(a, r);
    vstd::arithmetic::div_mod::lemma_fundamental_div_mod(b, r);
    let k = a / r - b / r;
    assert(a - b == r * k) by (nonlinear_arith)
        requires
            a == r * (a / r) + a % r,
            b == r * (b / r) + b % r,
            a % r == b % r,
            k == a / r - b / r,
    ;
    assert(k == 0) by (nonlinear_arith)
        requires
            a - b == r * k,
            -r < a - b < r,
            r > 0,
    ;
}

/// `byteorder::NativeEndian::write_u16` on a fresh two-byte buffer. Which
/// of the two orders the machine has is not known here: the buffer holds
/// the two bytes of `n` in one of them.
#[verifier::external_body]
fn native_write_u16(n: u16) -> (out: [u8; 2])
    ensures
        out@ == be_bytes(n as nat, 2) || out@ == le_bytes(n as nat, 2),
{
    let mut buf = [0u8; 2];
    <byteorder::NativeEndian as byteorder::ByteOrder>::write_u16(&mut buf, n);
    buf
}

/// `byteorder::BigEndian::write_u16` on a fresh two-byte buffer: the
/// buffer then holds the two bytes of `n`, most significant first.
#[verifier::external_body]
fn be_write_u16(n: u16) -> (out: [u8; 2])
    ensures
        out@ == be_bytes(n as nat, 2),
{
    let mut buf = [0u8; 2];
    <byteorder::BigEndian as byteorder::ByteOrder>::write_u16(&mut buf, n);
    buf
}

/// `byteorder::BigEndian::write_u32` on a fresh four-byte buffer: the
/// buffer then holds the four bytes of `n`, most significant first.
#[verifier::external_body]
fn be_write_u32(n: u32) -> (out: [u8; 4])
    ensures
        out@ == be_bytes(n as nat, 4),
{
    let mut buf = [0u8; 4];
    <byteorder::BigEndian as byteorder::ByteOrder>::write_u32(&mut buf, n);
    buf
}

/// `byteorder::BigEndian::write_u64` on a fresh eight-byte buffer: the
/// buffer then holds the eight bytes of `n`, most significant first.
#[verifier::external_body]
fn be_write_u64(n: u64) -> (out: [u8; 8])
    ensures
        out@ == be_bytes(n as nat, 8),
{
    let mut buf = [0u8; 8];
    <byteorder::BigEndian as byteorder::ByteOrder>::write_u64(&mut buf, n);
    buf
}

/// `byteorder::BigEndian::write_u128` on a fresh sixteen-byte buffer: the
/// buffer then holds the sixteen bytes of `n`, most significant first.
#[verifier::external_body]
fn be_write_u128(n: u128) -> (out: [u8; 16])
    ensures
        out@ == be_bytes(n as nat, 16),
{
    let mut buf = [0u8; 16];
    <byteorder::BigEndian as byteorder::ByteOrder>::write_u128(&mut buf, n);
    buf
}

/// `byteorder::LittleEndian::write_u16` on a fresh two-byte buffer: the
/// buffer then holds the two bytes of `n`, least significant first.
#[verifier::external_body]
fn le_write_u16(n: u16) -> (out: [u8; 2])
    ensures
        out@ == le_bytes(n as nat, 2),
{
    let mut buf = [0u8; 2];
    <byteorder::LittleEndian as byteorder::ByteOrder>::write_u16(&mut buf, n);
    buf
}

/// `byteorder::LittleEndian::write_u32` on a fresh four-byte buffer: the
/// buffer then holds the four bytes of `n`, least significant first.
#[verifier::external_body]
fn le_write_u32(n: u32) -> (out: [u8; 4])
    ensures
        out@ == le_bytes(n as nat, 4),
{
    let mut buf = [0u8; 4];
    <byteorder::LittleEndian as byteorder::ByteOrder>::write_u32(&mut buf, n);
    buf
}

/// `byteorder::LittleEndian::write_u64` on a fresh eight-byte buffer: the
/// buffer then holds the eight bytes of `n`, least significant first.
#[verifier::external_body]
fn le_write_u64(n: u64) -> (out: [u8; 8])
    ensures
        out@ == le_bytes(n as nat, 8),
{
    let mut buf = [0u8; 8];
    <byteorder::LittleEndian as byteorder::ByteOrder>::write_u64(&mut buf, n);
    buf
}

/// `byteorder::LittleEndian::write_u128` on a fresh sixteen-byte buffer: the
/// buffer then holds the sixteen bytes of `n`, least significant first.
#[verifier::external_body]
fn le_write_u128(n: u128) -> (out: [u8; 16])
    ensures
        out@ == le_bytes(n as nat, 16),
{
    let mut buf = [0u8; 16];
    <byteorder::LittleEndian as byteorder::ByteOrder>::write_u128(&mut buf, n);
    buf
}

/// The number 1 in two bytes, in either order.
pub proof fn lemma_one_in_two_bytes()
    ensures
        le_bytes(1, 2) == seq![1u8, 0u8],
        be_bytes(1, 2) == seq![0u8, 1u8],
{
    reveal_with_fuel(le_bytes, 3);
    reveal_with_fuel(be_bytes, 3);
    assert(le_bytes(1, 2) =~= seq![1u8, 0u8]);
    assert(be_bytes(1, 2) =~= seq![0u8, 1u8]);
}

impl ByteOrder {
    /// The order that a probe of the machine's own order shows: `probe` is
    /// what the machine lays down for the number 1 in two bytes.
    pub fn from_probe(probe: [u8; 2]) -> (order: ByteOrder)
        ensures
            order == if probe@[0] == 1u8 {
                ByteOrder::LittleEndian
            } else {
                ByteOrder::BigEndian
            },
            probe@ == le_bytes(1, 2) || probe@ == be_bytes(1, 2) ==> probe@ == order.bytes(1, 2),
    {
        proof {
            lemma_one_in_two_bytes();
        }
        if probe[0] == 1 {
            ByteOrder::LittleEndian
        } else {
            ByteOrder::BigEndian
        }
    }

    /// The byte order of the machine that runs this code.
    pub fn native() -> (order: ByteOrder) {
        ByteOrder::from_probe(native_write_u16(1))
    }

    /// The 2 bytes of `n` in this order.
    pub fn u16_bytes(self, n: u16) -> (out: [u8; 2])
        ensures
            out@ == self.bytes(n as nat, 2),
    {
        match self {
            ByteOrder::BigEndian => be_write_u16(n),
            ByteOrder::LittleEndian => le_write_u16(n),
        }
    }

    /// The 4 bytes of `n` in this order.
    pub fn u32_bytes(self, n: u32) -> (out: [u8; 4])
        ensures
            out@ == self.bytes(n as nat, 4),
    {
        match self {
            ByteOrder::BigEndian => be_write_u32(n),
            ByteOrder::LittleEndian => le_write_u32(n),
        }
    }

    /// The 8 bytes of `n` in this order.
    pub fn u64_bytes(self, n: u64) -> (out: [u8; 8])
        ensures
            out@ == self.bytes(n as nat, 8),
    {
        match self {
            ByteOrder::BigEndian => be_write_u64(n),
            ByteOrder::LittleEndian => le_write_u64(n),
        }
    }

    /// The 16 bytes of `n` in this order.
    pub fn u128_bytes(self, n: u128) -> (out: [u8; 16])
        ensures
            out@ == self.bytes(n as nat, 16),
    {
        match self {
            ByteOrder::BigEndian => be_write_u128(n),
            ByteOrder::LittleEndian => le_write_u128(n),
        }
    }
}

} // verus!
