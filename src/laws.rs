use vstd::prelude::*;
use crate::error::Error;
use crate::wire::{
    be_bytes, enc_i8, enc_i16, enc_i32, enc_i64, enc_u8, enc_u16, enc_u32, enc_u64, enc_bool,
    enc_opaque, pad_len, signed32, signed64, lemma_be_round_trip, lemma_bases,
};
use crate::de::{
    word32, word64, after, read_i8, read_i16, read_i32, read_i64, read_u8, read_u16, read_u32,
    read_u64, read_bool, has_opaque, opaque_payload, opaque_size,
};

verus! {

/// The word at the front of `be_bytes(m, 4) + rest` is `m`, and reading it
/// leaves `rest`.
proof fn lemma_front_word32(m: nat, rest: Seq<u8>)
    requires
        m < 0x1_0000_0000,
    ensures
        word32(be_bytes(m, 4) + rest) == m,
        after(be_bytes(m, 4) + rest, 4) == rest,
{
    lemma_be_round_trip(m, 4);
    lemma_bases();
    let s = be_bytes(m, 4) + rest;
    assert(s.subrange(0, 4) =~= be_bytes(m, 4));
    assert(s.subrange(4, s.len() as int) =~= rest);
}

/// The word at the front of `be_bytes(m, 8) + rest` is `m`, and reading it
/// leaves `rest`.
proof fn lemma_front_word64(m: nat, rest: Seq<u8>)
    requires
        m < 0x1_0000_0000_0000_0000,
    ensures
        word64(be_bytes(m, 8) + rest) == m,
        after(be_bytes(m, 8) + rest, 8) == rest,
{
    lemma_be_round_trip(m, 8);
    lemma_bases();
    let s = be_bytes(m, 8) + rest;
    assert(s.subrange(0, 8) =~= be_bytes(m, 8));
    assert(s.subrange(8, s.len() as int) =~= rest);
}

/// The 32-bit two's complement of a value in range reads back as that value.
proof fn lemma_signed32_of(v: int)
    requires
        -0x8000_0000 <= v < 0x8000_0000,
    ensures
        (v % 0x1_0000_0000) < 0x1_0000_0000,
        signed32((v % 0x1_0000_0000) as nat) == v,
{
}

/// An 8-bit signed value written in its 32-bit container reads back as
/// itself, and the read takes exactly the container.
pub proof fn lemma_i8_round_trip(v: i8, rest: Seq<u8>)
    ensures
        read_i8(enc_i8(v) + rest) == Ok::<i8, Error>(v),
        after(enc_i8(v) + rest, 4) == rest,
{
    lemma_signed32_of(v as int);
    lemma_front_word32((v as int % 0x1_0000_0000) as nat, rest);
}

/// A 32-bit container whose value lies outside the range of `i8` is refused
/// when read as `i8`, with that exact value.
pub proof fn lemma_i8_overflow(c: i32, rest: Seq<u8>)
    requires
        c < -128 || c > 127,
    ensures
        read_i8(enc_i32(c) + rest) == Err::<i8, Error>(Error::InvalidInteger8(c)),
{
    lemma_signed32_of(c as int);
    lemma_front_word32((c as int % 0x1_0000_0000) as nat, rest);
}

/// Every integer width and the boolean read back as what was written, and
/// each read takes exactly the bytes of its value.
pub proof fn lemma_scalar_round_trips(
    a: i16,
    b: i32,
    c: u8,
    d: u16,
    e: u32,
    f: bool,
    g: i64,
    h: u64,
    rest: Seq<u8>,
)
    ensures
        read_i16(enc_i16(a) + rest) == Ok::<i16, Error>(a),
        after(enc_i16(a) + rest, 4) == rest,
        read_i32(enc_i32(b) + rest) == Ok::<i32, Error>(b),
        after(enc_i32(b) + rest, 4) == rest,
        read_u8(enc_u8(c) + rest) == Ok::<u8, Error>(c),
        after(enc_u8(c) + rest, 4) == rest,
        read_u16(enc_u16(d) + rest) == Ok::<u16, Error>(d),
        after(enc_u16(d) + rest, 4) == rest,
        read_u32(enc_u32(e) + rest) == Ok::<u32, Error>(e),
        after(enc_u32(e) + rest, 4) == rest,
        read_bool(enc_bool(f) + rest) == Ok::<bool, Error>(f),
        after(enc_bool(f) + rest, 4) == rest,
        read_i64(enc_i64(g) + rest) == Ok::<i64, Error>(g),
        after(enc_i64(g) + rest, 8) == rest,
        read_u64(enc_u64(h) + rest) == Ok::<u64, Error>(h),
        after(enc_u64(h) + rest, 8) == rest,
{
    lemma_signed32_of(a as int);
    lemma_front_word32((a as int % 0x1_0000_0000) as nat, rest);
    lemma_signed32_of(b as int);
    lemma_front_word32((b as int % 0x1_0000_0000) as nat, rest);
    lemma_front_word32(c as nat, rest);
    lemma_front_word32(d as nat, rest);
    lemma_front_word32(e as nat, rest);
    lemma_front_word32(if f { 1 } else { 0 }, rest);
    let m = (g as int % 0x1_0000_0000_0000_0000) as nat;
    assert(signed64(m) == g as int);
    lemma_front_word64(m, rest);
    lemma_front_word64(h as nat, rest);
}

/// Opaque data written with its length and padding reads back as the same
/// bytes, and the read takes exactly what was written.
pub proof fn lemma_opaque_round_trip(data: Seq<u8>, rest: Seq<u8>)
    requires
        data.len() <= u32::MAX,
    ensures
        has_opaque(enc_opaque(data) + rest),
        opaque_payload(enc_opaque(data) + rest) == data,
        after(enc_opaque(data) + rest, opaque_size(enc_opaque(data) + rest)) == rest,
{
    let zeros = Seq::new(pad_len(data.len()), |i: int| 0u8);
    let tail = data + zeros + rest;
    let s = enc_opaque(data) + rest;
    assert(s =~= be_bytes(data.len(), 4) + tail);
    lemma_front_word32(data.len(), tail);
    assert(s.subrange(4, 4 + data.len() as int) =~= data);
    let n = 4 + data.len() + pad_len(data.len());
    assert(s.subrange(n as int, s.len() as int) =~= rest);
}

} // verus!
