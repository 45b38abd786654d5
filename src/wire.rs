use vstd::prelude::*;
use vstd::arithmetic::div_mod::lemma_mod_breakdown;
use byteorder::{BigEndian, ByteOrder};

verus! {

/// `256` raised to the power `n`: the number of values that `n` bytes hold.
pub open spec fn byte_base(n: nat) -> nat
    decreases n,
{
    if n == 0 {
        1
    } else {
        256 * byte_base((n - 1) as nat)
    }
}

/// The `n` low bytes of `v`, most significant first.
pub open spec fn be_bytes(v: nat, n: nat) -> Seq<u8>
    decreases n,
{
    if n == 0 {
        Seq::empty()
    } else {
        be_bytes(v / 256, (n - 1) as nat).push((v % 256) as u8)
    }
}

/// The number that the bytes `s` spell, most significant first.
pub open spec fn be_value(s: Seq<u8>) -> nat
    decreases s.len(),
{
    if s.len() == 0 {
        0
    } else {
        be_value(s.drop_last()) * 256 + s.last() as nat
    }
}

/// An `unsigned-integer32` on the wire.
pub open spec fn enc_u32(v: u32) -> Seq<u8> {
    be_bytes(v as nat, 4)
}

/// An `unsigned-hyper-integer64` on the wire.
pub open spec fn enc_u64(v: u64) -> Seq<u8> {
    be_bytes(v as nat, 8)
}

/// An `integer32` on the wire: the two's complement of `v` in four bytes.
pub open spec fn enc_i32(v: i32) -> Seq<u8> {
    be_bytes((v as int % 0x1_0000_0000) as nat, 4)
}

/// A `hyper-integer64` on the wire: the two's complement of `v` in eight bytes.
pub open spec fn enc_i64(v: i64) -> Seq<u8> {
    be_bytes((v as int % 0x1_0000_0000_0000_0000) as nat, 8)
}

/// An 8-bit signed value, carried in a 32-bit container.
pub open spec fn enc_i8(v: i8) -> Seq<u8> {
    be_bytes((v as int % 0x1_0000_0000) as nat, 4)
}

/// A 16-bit signed value, carried in a 32-bit container.
pub open spec fn enc_i16(v: i16) -> Seq<u8> {
    be_bytes((v as int % 0x1_0000_0000) as nat, 4)
}

/// An 8-bit unsigned value, carried in a 32-bit container.
pub open spec fn enc_u8(v: u8) -> Seq<u8> {
    be_bytes(v as nat, 4)
}

/// A 16-bit unsigned value, carried in a 32-bit container.
pub open spec fn enc_u16(v: u16) -> Seq<u8> {
    be_bytes(v as nat, 4)
}

/// A boolean: the unsigned 32-bit value `1` or `0`.
pub open spec fn enc_bool(b: bool) -> Seq<u8> {
    enc_u32(if b { 1 } else { 0 })
}

/// The number of zero bytes that align a payload of `len` bytes to four.
pub open spec fn pad_len(len: nat) -> nat {
    ((4 - len % 4) % 4) as nat
}

/// Variable-length opaque data: its length as an `unsigned-integer32`, the
/// bytes themselves, then zero padding to a multiple of four.
pub open spec fn enc_opaque(s: Seq<u8>) -> Seq<u8> {
    be_bytes(s.len(), 4) + s + Seq::new(pad_len(s.len()), |i: int| 0u8)
}

/// The signed value that a 32-bit container of two's complement holds.
pub open spec fn signed32(w: nat) -> int {
    if w < 0x8000_0000 {
        w as int
    } else {
        w - 0x1_0000_0000
    }
}

/// The signed value that a 64-bit container of two's complement holds.
pub open spec fn signed64(w: nat) -> int {
    if w < 0x8000_0000_0000_0000 {
        w as int
    } else {
        w - 0x1_0000_0000_0000_0000
    }
}

/// `be_bytes` always yields exactly `n` bytes.
pub proof fn lemma_be_len(v: nat, n: nat)
    ensures
        be_bytes(v, n).len() == n,
    decreases n,
{
    if n > 0 {
        lemma_be_len(v / 256, (n - 1) as nat);
    }
}

/// Reading back the `n` bytes of `v` gives `v` modulo `256^n`.
pub proof fn lemma_be_round_trip(v: nat, n: nat)
    ensures
        be_value(be_bytes(v, n)) == v % byte_base(n),
        be_bytes(v, n).len() == n,
    decreases n,
{
    lemma_be_len(v, n);
    if n > 0 {
        let m = (n - 1) as nat;
        lemma_be_round_trip(v / 256, m);
        let s = be_bytes(v, n);
        assert(s.drop_last() =~= be_bytes(v / 256, m));
        lemma_base_positive(m);
        lemma_mod_breakdown(v as int, 256, byte_base(m) as int);
        assert(byte_base(n) == 256 * byte_base(m));
    }
}

/// The number that `s` spells fits in `s.len()` bytes.
pub proof fn lemma_be_value_bound(s: Seq<u8>)
    ensures
        be_value(s) < byte_base(s.len()),
    decreases s.len(),
{
    if s.len() > 0 {
        let t = s.drop_last();
        lemma_be_value_bound(t);
        assert(byte_base(s.len()) == 256 * byte_base(t.len()));
        assert(be_value(t) + 1 <= byte_base(t.len()));
        assert((be_value(t) + 1) * 256 <= byte_base(t.len()) * 256) by (nonlinear_arith)
            requires
                be_value(t) + 1 <= byte_base(t.len()),
        ;
    }
}

/// The bases of four and eight bytes.
pub proof fn lemma_bases()
    ensures
        byte_base(4) == 0x1_0000_0000,
        byte_base(8) == 0x1_0000_0000_0000_0000,
{
    reveal_with_fuel(byte_base, 9);
}

/// `256^n` is positive.
pub proof fn lemma_base_positive(n: nat)
    ensures
        byte_base(n) > 0,
    decreases n,
{
    if n > 0 {
        lemma_base_positive((n - 1) as nat);
    }
}

/// Encoding an 8 or 16-bit value through its narrow entry point gives the
/// same bytes as encoding the value widened to 32 bits.
pub proof fn lemma_widening_lossless(a: i8, b: i16, c: u8, d: u16)
    ensures
        enc_i8(a) == enc_i32(a as i32),
        enc_i16(b) == enc_i32(b as i32),
        enc_u8(c) == enc_u32(c as u32),
        enc_u16(d) == enc_u32(d as u32),
{
}

/// Opaque data of length `L` takes `4 + L + pad` bytes, where
/// `pad = (4 - L mod 4) mod 4`; the payload follows the length and the
/// trailing `pad` bytes are zero, so the whole is a multiple of four.
pub proof fn lemma_padding_law(s: Seq<u8>)
    ensures
        pad_len(s.len()) == (4 - s.len() % 4) % 4,
        pad_len(s.len()) < 4,
        enc_opaque(s).len() == 4 + s.len() + pad_len(s.len()),
        enc_opaque(s).len() % 4 == 0,
        enc_opaque(s).subrange(0, 4) == be_bytes(s.len(), 4),
        enc_opaque(s).subrange(4, 4 + s.len() as int) == s,
        forall|i: int|
            4 + s.len() <= i < enc_opaque(s).len() ==> #[trigger] enc_opaque(s)[i] == 0u8,
{
    lemma_be_len(s.len(), 4);
    let e = enc_opaque(s);
    assert(e.subrange(0, 4) =~= be_bytes(s.len(), 4));
    assert(e.subrange(4, 4 + s.len() as int) =~= s);
}

/// Relies on byteorder's `BigEndian::write_u32`: the four bytes of `n`, most
/// significant first.
#[verifier::external_body]
pub(crate) fn be_u32_bytes(n: u32) -> (r: [u8; 4])
    ensures
        r@ == be_bytes(n as nat, 4),
{
    let mut buf = [0u8; 4];
    BigEndian::write_u32(&mut buf, n);
    buf
}

/// Relies on byteorder's `BigEndian::write_u64`: the eight bytes of `n`, most
/// significant first.
#[verifier::external_body]
pub(crate) fn be_u64_bytes(n: u64) -> (r: [u8; 8])
    ensures
        r@ == be_bytes(n as nat, 8),
{
    let mut buf = [0u8; 8];
    BigEndian::write_u64(&mut buf, n);
    buf
}

/// Relies on byteorder's `BigEndian::read_u32`, which reads the first four
/// bytes of the slice it is given, most significant first.
#[verifier::external_body]
pub(crate) fn read_be_u32(buf: &[u8], at: usize) -> (r: u32)
    requires
        at + 4 <= buf@.len(),
    ensures
        r as nat == be_value(buf@.subrange(at as int, at + 4)),
{
    BigEndian::read_u32(&buf[at..])
}

/// Relies on byteorder's `BigEndian::read_u64`, which reads the first eight
/// bytes of the slice it is given, most significant first.
#[verifier::external_body]
pub(crate) fn read_be_u64(buf: &[u8], at: usize) -> (r: u64)
    requires
        at + 8 <= buf@.len(),
    ensures
        r as nat == be_value(buf@.subrange(at as int, at + 8)),
{
    BigEndian::read_u64(&buf[at..])
}

} // verus!
