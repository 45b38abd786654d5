use vstd::prelude::*;
use vstd::string::StringSliceAdditionalSpecFns;
use crate::error::{Error, rejects, unsupported};
use crate::wire::{
    be_u32_bytes, be_u64_bytes, enc_u32, enc_u64, enc_i32, enc_i64, enc_i8, enc_i16, enc_u8, enc_u16,
    enc_bool, enc_opaque, pad_len, lemma_padding_law,
};

verus! {

/// Writes values in their XDR form at the end of a byte buffer.
///
/// Each successful call appends exactly the bytes of one value; a refused
/// value leaves the buffer as it was.
pub struct Serializer {
    buffer: Vec<u8>,
}

impl View for Serializer {
    type V = Seq<u8>;

    closed spec fn view(&self) -> Seq<u8> {
        self.buffer@
    }
}

/// Appends the bytes of `src` to `dst`.
fn append(dst: &mut Vec<u8>, src: &[u8])
    ensures
        final(dst)@ == old(dst)@ + src@,
{
    let mut i: usize = 0;
    while i < src.len()
        invariant
            i <= src@.len(),
            dst@ == old(dst)@ + src@.subrange(0, i as int),
        decreases src@.len() - i,
    {
        dst.push(src[i]);
        i = i + 1;
        assert(src@.subrange(0, i as int) =~= src@.subrange(0, i - 1).push(src@[i - 1]));
    }
    assert(src@.subrange(0, i as int) =~= src@);
}

impl Serializer {
    /// A serializer over an empty buffer.
    pub fn new() -> (s: Self)
        ensures
            s@ == Seq::<u8>::empty(),
    {
        Serializer { buffer: Vec::new() }
    }

    /// The bytes written so far.
    pub fn as_bytes(&self) -> (r: &[u8])
        ensures
            r@ == self@,
    {
        self.buffer.as_slice()
    }

    /// Gives up the serializer and hands back the bytes written.
    pub fn into_bytes(self) -> (r: Vec<u8>)
        ensures
            r@ == self@,
    {
        self.buffer
    }

    /// Writes `value` as an `unsigned-integer32`, four bytes big-endian.
    pub fn serialize_u32(&mut self, value: u32) -> (r: Result<(), Error>)
        ensures
            r == Ok::<(), Error>(()),
            final(self)@ == old(self)@ + enc_u32(value),
    {
        let b = be_u32_bytes(value);
        append(&mut self.buffer, &b);
        Ok(())
    }

    /// Writes `value` as an `unsigned-hyper-integer64`, eight bytes big-endian.
    pub fn serialize_u64(&mut self, value: u64) -> (r: Result<(), Error>)
        ensures
            r == Ok::<(), Error>(()),
            final(self)@ == old(self)@ + enc_u64(value),
    {
        let b = be_u64_bytes(value);
        append(&mut self.buffer, &b);
        Ok(())
    }

    /// Writes `value` as an `integer32`: its two's complement, four bytes
    /// big-endian.
    pub fn serialize_i32(&mut self, value: i32) -> (r: Result<(), Error>)
        ensures
            r == Ok::<(), Error>(()),
            final(self)@ == old(self)@ + enc_i32(value),
    {
        let bits: u32 = if value >= 0 {
            value as u32
        } else {
            (value as i64 + 0x1_0000_0000) as u32
        };
        self.serialize_u32(bits)
    }

    /// Writes `value` as a `hyper-integer64`: its two's complement, eight
    /// bytes big-endian.
    pub fn serialize_i64(&mut self, value: i64) -> (r: Result<(), Error>)
        ensures
            r == Ok::<(), Error>(()),
            final(self)@ == old(self)@ + enc_i64(value),
    {
        let bits: u64 = if value >= 0 {
            value as u64
        } else {
            (value + i64::MAX + 1) as u64 + 0x8000_0000_0000_0000
        };
        self.serialize_u64(bits)
    }

    /// Writes `value` as an `unsigned-integer32` holding `1` for true and `0`
    /// for false.
    pub fn serialize_bool(&mut self, value: bool) -> (r: Result<(), Error>)
        ensures
            r == Ok::<(), Error>(()),
            final(self)@ == old(self)@ + enc_bool(value),
    {
        self.serialize_u32(if value { 1 } else { 0 })
    }

    /// Writes `value` widened to an `integer32`.
    pub fn serialize_i8(&mut self, value: i8) -> (r: Result<(), Error>)
        ensures
            r == Ok::<(), Error>(()),
            final(self)@ == old(self)@ + enc_i8(value),
    {
        self.serialize_i32(value as i32)
    }

    /// Writes `value` widened to an `integer32`.
    pub fn serialize_i16(&mut self, value: i16) -> (r: Result<(), Error>)
        ensures
            r == Ok::<(), Error>(()),
            final(self)@ == old(self)@ + enc_i16(value),
    {
        self.serialize_i32(value as i32)
    }

    /// Writes `value` widened to an `unsigned-integer32`.
    pub fn serialize_u8(&mut self, value: u8) -> (r: Result<(), Error>)
        ensures
            r == Ok::<(), Error>(()),
            final(self)@ == old(self)@ + enc_u8(value),
    {
        self.serialize_u32(value as u32)
    }

    /// Writes `value` widened to an `unsigned-integer32`.
    pub fn serialize_u16(&mut self, value: u16) -> (r: Result<(), Error>)
        ensures
            r == Ok::<(), Error>(()),
            final(self)@ == old(self)@ + enc_u16(value),
    {
        self.serialize_u32(value as u32)
    }

    /// Writes the discriminant of a variant without payload: its index as an
    /// `unsigned-integer32`. The names are not written.
    pub fn serialize_unit_variant(&mut self, _name: &str, variant_index: u32, _variant: &str) -> (r:
        Result<(), Error>)
        ensures
            r == Ok::<(), Error>(()),
            final(self)@ == old(self)@ + enc_u32(variant_index),
    {
        self.serialize_u32(variant_index)
    }

    /// Writes `value` as variable-length opaque data: its length, the bytes,
    /// then zero bytes up to a multiple of four. Data longer than a 32-bit
    /// length can say is refused and nothing is written.
    pub fn serialize_bytes(&mut self, value: &[u8]) -> (r: Result<(), Error>)
        ensures
            value@.len() <= u32::MAX ==> r == Ok::<(), Error>(()) && final(self)@ == old(self)@
                + enc_opaque(value@),
            value@.len() > u32::MAX ==> r == Err::<(), Error>(Error::LengthTooLarge(value@.len() as usize))
                && final(self)@ == old(self)@,
    {
        let len = value.len();
        if len > 0xffff_ffff {
            return Err(Error::LengthTooLarge(len));
        }
        let b = be_u32_bytes(len as u32);
        append(&mut self.buffer, &b);
        append(&mut self.buffer, value);
        let pad: usize = (4 - len % 4) % 4;
        let ghost before = self.buffer@;
        let mut i: usize = 0;
        while i < pad
            invariant
                pad == pad_len(value@.len()),
                i <= pad,
                self.buffer@ == before + Seq::new(i as nat, |k: int| 0u8),
            decreases pad - i,
        {
            self.buffer.push(0);
            i = i + 1;
            assert(Seq::new(i as nat, |k: int| 0u8) =~= Seq::new((i - 1) as nat, |k: int| 0u8).push(0u8));
        }
        proof {
            lemma_padding_law(value@);
            assert(self.buffer@ =~= old(self)@ + enc_opaque(value@));
        }
        Ok(())
    }

    /// Writes `value` as a string: its UTF-8 bytes, framed as opaque data.
    pub fn serialize_str(&mut self, value: &str) -> (r: Result<(), Error>)
        ensures
            value.spec_bytes().len() <= u32::MAX ==> r == Ok::<(), Error>(()) && final(self)@ == old(
                self,
            )@ + enc_opaque(value.spec_bytes()),
            value.spec_bytes().len() > u32::MAX ==> r == Err::<(), Error>(
                Error::LengthTooLarge(value.spec_bytes().len() as usize),
            ) && final(self)@ == old(self)@,
    {
        self.serialize_bytes(value.as_bytes())
    }

    /// Refuses a character: XDR has no wire form for one.
    pub fn serialize_char(&mut self, _value: char) -> (r: Result<(), Error>)
        ensures
            rejects(r, "char"@),
            final(self)@ == old(self)@,
    {
        unsupported("char")
    }

    /// Refuses an absent optional value.
    pub fn serialize_none(&mut self) -> (r: Result<(), Error>)
        ensures
            rejects(r, "none"@),
            final(self)@ == old(self)@,
    {
        unsupported("none")
    }

    /// Refuses a present optional value.
    pub fn serialize_some(&mut self) -> (r: Result<(), Error>)
        ensures
            rejects(r, "some(?)"@),
            final(self)@ == old(self)@,
    {
        unsupported("some(?)")
    }

    /// Refuses the unit value.
    pub fn serialize_unit(&mut self) -> (r: Result<(), Error>)
        ensures
            rejects(r, "unit"@),
            final(self)@ == old(self)@,
    {
        unsupported("unit")
    }

    /// Refuses a struct without fields.
    pub fn serialize_unit_struct(&mut self, _name: &str) -> (r: Result<(), Error>)
        ensures
            rejects(r, "unit_struct"@),
            final(self)@ == old(self)@,
    {
        unsupported("unit_struct")
    }

    /// Refuses a struct that wraps one value.
    pub fn serialize_newtype_struct(&mut self, _name: &str) -> (r: Result<(), Error>)
        ensures
            rejects(r, "newtype_struct"@),
            final(self)@ == old(self)@,
    {
        unsupported("newtype_struct")
    }

    /// Refuses a variant that carries one value.
    pub fn serialize_newtype_variant(&mut self, _name: &str, _variant_index: u32, _variant: &str) -> (r:
        Result<(), Error>)
        ensures
            rejects(r, "newtype_variant"@),
            final(self)@ == old(self)@,
    {
        unsupported("newtype_variant")
    }

    /// Refuses a sequence.
    pub fn serialize_seq(&mut self, _length: Option<usize>) -> (r: Result<(), Error>)
        ensures
            rejects(r, "seq"@),
            final(self)@ == old(self)@,
    {
        unsupported("seq")
    }

    /// Refuses a tuple.
    pub fn serialize_tuple(&mut self, _length: usize) -> (r: Result<(), Error>)
        ensures
            rejects(r, "tuple"@),
            final(self)@ == old(self)@,
    {
        unsupported("tuple")
    }

    /// Refuses a tuple struct.
    pub fn serialize_tuple_struct(&mut self, _name: &str, _length: usize) -> (r: Result<(), Error>)
        ensures
            rejects(r, "tuple_struct"@),
            final(self)@ == old(self)@,
    {
        unsupported("tuple_struct")
    }

    /// Refuses a variant that carries a tuple.
    pub fn serialize_tuple_variant(
        &mut self,
        _name: &str,
        _variant_index: u32,
        _variant: &str,
        _length: usize,
    ) -> (r: Result<(), Error>)
        ensures
            rejects(r, "tuple_variant"@),
            final(self)@ == old(self)@,
    {
        unsupported("tuple_variant")
    }

    /// Refuses a map.
    pub fn serialize_map(&mut self, _length: Option<usize>) -> (r: Result<(), Error>)
        ensures
            rejects(r, "map"@),
            final(self)@ == old(self)@,
    {
        unsupported("map")
    }

    /// Refuses a struct with named fields.
    pub fn serialize_struct(&mut self, _name: &str, _length: usize) -> (r: Result<(), Error>)
        ensures
            rejects(r, "struct"@),
            final(self)@ == old(self)@,
    {
        unsupported("struct")
    }

    /// Refuses a variant that carries named fields.
    pub fn serialize_struct_variant(
        &mut self,
        _name: &str,
        _variant_index: u32,
        _variant: &str,
        _length: usize,
    ) -> (r: Result<(), Error>)
        ensures
            rejects(r, "struct_variant"@),
            final(self)@ == old(self)@,
    {
        unsupported("struct_variant")
    }
}

} // verus!
