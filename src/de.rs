use vstd::prelude::*;
use vstd::utf8::{valid_utf8, decode_utf8};
use crate::error::{Error, rejects, unsupported};
use crate::wire::{
    read_be_u32, read_be_u64, be_value, signed32, signed64, pad_len, lemma_be_value_bound, lemma_bases,
};

verus! {

/// The unsigned value of the first four bytes of `s`.
pub open spec fn word32(s: Seq<u8>) -> nat {
    be_value(s.subrange(0, 4))
}

/// A word read from the front of `s` fits its width.
pub proof fn lemma_word_bounds(s: Seq<u8>)
    ensures
        s.len() >= 4 ==> word32(s) < 0x1_0000_0000,
        s.len() >= 8 ==> word64(s) < 0x1_0000_0000_0000_0000,
{
    lemma_bases();
    if s.len() >= 4 {
        lemma_be_value_bound(s.subrange(0, 4));
    }
    if s.len() >= 8 {
        lemma_be_value_bound(s.subrange(0, 8));
    }
}

/// The unsigned value of the first eight bytes of `s`.
pub open spec fn word64(s: Seq<u8>) -> nat {
    be_value(s.subrange(0, 8))
}

/// What is left of `s` once a value of `n` bytes has been read from it; a
/// read that finds fewer than `n` bytes takes nothing.
pub open spec fn after(s: Seq<u8>, n: nat) -> Seq<u8> {
    if s.len() < n {
        s
    } else {
        s.subrange(n as int, s.len() as int)
    }
}

/// An `unsigned-integer32` read from the front of `s`.
pub open spec fn read_u32(s: Seq<u8>) -> Result<u32, Error> {
    if s.len() < 4 {
        Err(Error::UnexpectedEnd)
    } else {
        Ok(word32(s) as u32)
    }
}

/// An `integer32` read from the front of `s`.
pub open spec fn read_i32(s: Seq<u8>) -> Result<i32, Error> {
    if s.len() < 4 {
        Err(Error::UnexpectedEnd)
    } else {
        Ok(signed32(word32(s)) as i32)
    }
}

/// An `unsigned-hyper-integer64` read from the front of `s`.
pub open spec fn read_u64(s: Seq<u8>) -> Result<u64, Error> {
    if s.len() < 8 {
        Err(Error::UnexpectedEnd)
    } else {
        Ok(word64(s) as u64)
    }
}

/// A `hyper-integer64` read from the front of `s`.
pub open spec fn read_i64(s: Seq<u8>) -> Result<i64, Error> {
    if s.len() < 8 {
        Err(Error::UnexpectedEnd)
    } else {
        Ok(signed64(word64(s)) as i64)
    }
}

/// An 8-bit signed value read from the 32-bit container at the front of `s`.
pub open spec fn read_i8(s: Seq<u8>) -> Result<i8, Error> {
    if s.len() < 4 {
        Err(Error::UnexpectedEnd)
    } else if -128 <= signed32(word32(s)) <= 127 {
        Ok(signed32(word32(s)) as i8)
    } else {
        Err(Error::InvalidInteger8(signed32(word32(s)) as i32))
    }
}

/// A 16-bit signed value read from the 32-bit container at the front of `s`.
pub open spec fn read_i16(s: Seq<u8>) -> Result<i16, Error> {
    if s.len() < 4 {
        Err(Error::UnexpectedEnd)
    } else if -0x8000 <= signed32(word32(s)) <= 0x7fff {
        Ok(signed32(word32(s)) as i16)
    } else {
        Err(Error::InvalidInteger16(signed32(word32(s)) as i32))
    }
}

/// An 8-bit unsigned value read from the 32-bit container at the front of `s`.
pub open spec fn read_u8(s: Seq<u8>) -> Result<u8, Error> {
    if s.len() < 4 {
        Err(Error::UnexpectedEnd)
    } else if word32(s) <= 0xff {
        Ok(word32(s) as u8)
    } else {
        Err(Error::InvalidUnsignedInteger8(word32(s) as u32))
    }
}

/// A 16-bit unsigned value read from the 32-bit container at the front of `s`.
pub open spec fn read_u16(s: Seq<u8>) -> Result<u16, Error> {
    if s.len() < 4 {
        Err(Error::UnexpectedEnd)
    } else if word32(s) <= 0xffff {
        Ok(word32(s) as u16)
    } else {
        Err(Error::InvalidUnsignedInteger16(word32(s) as u32))
    }
}

/// A boolean read from the front of `s`: `0` is false, `1` is true.
pub open spec fn read_bool(s: Seq<u8>) -> Result<bool, Error> {
    if s.len() < 4 {
        Err(Error::UnexpectedEnd)
    } else if word32(s) == 0 {
        Ok(false)
    } else if word32(s) == 1 {
        Ok(true)
    } else {
        Err(Error::InvalidBool(word32(s) as u32))
    }
}

/// The number of bytes that variable-length opaque data at the front of `s`
/// takes, length and padding included.
pub open spec fn opaque_size(s: Seq<u8>) -> nat {
    4 + word32(s) + pad_len(word32(s))
}

/// `s` begins with a complete piece of variable-length opaque data.
pub open spec fn has_opaque(s: Seq<u8>) -> bool {
    s.len() >= 4 && s.len() >= opaque_size(s)
}

/// The payload of the opaque data at the front of `s`.
pub open spec fn opaque_payload(s: Seq<u8>) -> Seq<u8> {
    s.subrange(4, 4 + word32(s) as int)
}

/// Reads XDR values, one after another, from a byte buffer.
pub struct Deserializer {
    input: Vec<u8>,
    pos: usize,
}

impl View for Deserializer {
    type V = Seq<u8>;

    /// The bytes not read yet.
    closed spec fn view(&self) -> Seq<u8> {
        self.input@.subrange(self.pos as int, self.input@.len() as int)
    }
}

impl Deserializer {
    /// The read position lies within the input.
    pub closed spec fn wf(&self) -> bool {
        self.pos <= self.input@.len()
    }

    /// A deserializer that reads `input` from its start.
    pub fn new(input: Vec<u8>) -> (d: Self)
        ensures
            d.wf(),
            d@ == input@,
    {
        let d = Deserializer { input, pos: 0 };
        assert(d@ =~= d.input@);
        d
    }

    /// The number of bytes not read yet.
    pub fn remaining(&self) -> (r: usize)
        requires
            self.wf(),
        ensures
            r == self@.len(),
    {
        self.input.len() - self.pos
    }

    /// Reads an `unsigned-integer32`.
    pub fn deserialize_u32(&mut self) -> (r: Result<u32, Error>)
        requires
            old(self).wf(),
        ensures
            final(self).wf(),
            r == read_u32(old(self)@),
            final(self)@ == after(old(self)@, 4),
    {
        if self.input.len() - self.pos < 4 {
            return Err(Error::UnexpectedEnd);
        }
        let w = read_be_u32(self.input.as_slice(), self.pos);
        proof {
            assert(self.input@.subrange(self.pos as int, self.pos + 4) =~= self@.subrange(0, 4));
        }
        self.pos = self.pos + 4;
        proof {
            assert(self@ =~= after(old(self)@, 4));
        }
        Ok(w)
    }

    /// Reads an `unsigned-hyper-integer64`.
    pub fn deserialize_u64(&mut self) -> (r: Result<u64, Error>)
        requires
            old(self).wf(),
        ensures
            final(self).wf(),
            r == read_u64(old(self)@),
            final(self)@ == after(old(self)@, 8),
    {
        if self.input.len() - self.pos < 8 {
            return Err(Error::UnexpectedEnd);
        }
        let w = read_be_u64(self.input.as_slice(), self.pos);
        proof {
            assert(self.input@.subrange(self.pos as int, self.pos + 8) =~= self@.subrange(0, 8));
        }
        self.pos = self.pos + 8;
        proof {
            assert(self@ =~= after(old(self)@, 8));
        }
        Ok(w)
    }

    /// Reads an `integer32`.
    pub fn deserialize_i32(&mut self) -> (r: Result<i32, Error>)
        requires
            old(self).wf(),
        ensures
            final(self).wf(),
            r == read_i32(old(self)@),
            final(self)@ == after(old(self)@, 4),
    {
        let w = match self.deserialize_u32() {
            Ok(w) => w,
            Err(e) => return Err(e),
        };
        proof {
            lemma_word_bounds(old(self)@);
        }
        if w < 0x8000_0000 {
            Ok(w as i32)
        } else {
            Ok(((w - 0x8000_0000) as i32) - 0x7fff_ffff - 1)
        }
    }

    /// Reads a `hyper-integer64`.
    pub fn deserialize_i64(&mut self) -> (r: Result<i64, Error>)
        requires
            old(self).wf(),
        ensures
            final(self).wf(),
            r == read_i64(old(self)@),
            final(self)@ == after(old(self)@, 8),
    {
        let w = match self.deserialize_u64() {
            Ok(w) => w,
            Err(e) => return Err(e),
        };
        proof {
            lemma_word_bounds(old(self)@);
        }
        if w < 0x8000_0000_0000_0000 {
            Ok(w as i64)
        } else {
            Ok(((w - 0x8000_0000_0000_0000) as i64) - 0x7fff_ffff_ffff_ffff - 1)
        }
    }

    /// Reads an 8-bit signed value from a 32-bit container; a value outside
    /// the range of `i8` is refused with that value.
    pub fn deserialize_i8(&mut self) -> (r: Result<i8, Error>)
        requires
            old(self).wf(),
        ensures
            final(self).wf(),
            r == read_i8(old(self)@),
            final(self)@ == after(old(self)@, 4),
    {
        let value = match self.deserialize_i32() {
            Ok(v) => v,
            Err(e) => return Err(e),
        };
        proof {
            lemma_word_bounds(old(self)@);
        }
        if value >= -128 && value <= 127 {
            Ok(value as i8)
        } else {
            Err(Error::InvalidInteger8(value))
        }
    }

    /// Reads a 16-bit signed value from a 32-bit container; a value outside
    /// the range of `i16` is refused with that value.
    pub fn deserialize_i16(&mut self) -> (r: Result<i16, Error>)
        requires
            old(self).wf(),
        ensures
            final(self).wf(),
            r == read_i16(old(self)@),
            final(self)@ == after(old(self)@, 4),
    {
        let value = match self.deserialize_i32() {
            Ok(v) => v,
            Err(e) => return Err(e),
        };
        proof {
            lemma_word_bounds(old(self)@);
        }
        if value >= -0x8000 && value <= 0x7fff {
            Ok(value as i16)
        } else {
            Err(Error::InvalidInteger16(value))
        }
    }

    /// Reads an 8-bit unsigned value from a 32-bit container; a value above
    /// `u8::MAX` is refused with that value.
    pub fn deserialize_u8(&mut self) -> (r: Result<u8, Error>)
        requires
            old(self).wf(),
        ensures
            final(self).wf(),
            r == read_u8(old(self)@),
            final(self)@ == after(old(self)@, 4),
    {
        let value = match self.deserialize_u32() {
            Ok(v) => v,
            Err(e) => return Err(e),
        };
        proof {
            lemma_word_bounds(old(self)@);
        }
        if value <= 0xff {
            Ok(value as u8)
        } else {
            Err(Error::InvalidUnsignedInteger8(value))
        }
    }

    /// Reads a 16-bit unsigned value from a 32-bit container; a value above
    /// `u16::MAX` is refused with that value.
    pub fn deserialize_u16(&mut self) -> (r: Result<u16, Error>)
        requires
            old(self).wf(),
        ensures
            final(self).wf(),
            r == read_u16(old(self)@),
            final(self)@ == after(old(self)@, 4),
    {
        let value = match self.deserialize_u32() {
            Ok(v) => v,
            Err(e) => return Err(e),
        };
        proof {
            lemma_word_bounds(old(self)@);
        }
        if value <= 0xffff {
            Ok(value as u16)
        } else {
            Err(Error::InvalidUnsignedInteger16(value))
        }
    }

    /// Reads a boolean; a container holding neither `0` nor `1` is refused.
    pub fn deserialize_bool(&mut self) -> (r: Result<bool, Error>)
        requires
            old(self).wf(),
        ensures
            final(self).wf(),
            r == read_bool(old(self)@),
            final(self)@ == after(old(self)@, 4),
    {
        let value = match self.deserialize_u32() {
            Ok(v) => v,
            Err(e) => return Err(e),
        };
        proof {
            lemma_word_bounds(old(self)@);
        }
        if value == 0 {
            Ok(false)
        } else if value == 1 {
            Ok(true)
        } else {
            Err(Error::InvalidBool(value))
        }
    }

    /// Reads variable-length opaque data and returns its payload, skipping
    /// the padding. Input that ends before the padding does is refused and
    /// nothing is read.
    pub fn deserialize_bytes(&mut self) -> (r: Result<Vec<u8>, Error>)
        requires
            old(self).wf(),
        ensures
            final(self).wf(),
            has_opaque(old(self)@) ==> (r matches Ok(v) && v@ == opaque_payload(old(self)@)),
            has_opaque(old(self)@) ==> final(self)@ == after(old(self)@, opaque_size(old(self)@)),
            !has_opaque(old(self)@) ==> r == Err::<Vec<u8>, Error>(Error::UnexpectedEnd)
                && final(self)@ == old(self)@,
    {
        let available = self.input.len() - self.pos;
        if available < 4 {
            return Err(Error::UnexpectedEnd);
        }
        let len = read_be_u32(self.input.as_slice(), self.pos);
        proof {
            assert(self.input@.subrange(self.pos as int, self.pos + 4) =~= self@.subrange(0, 4));
        }
        let len = len as usize;
        let pad: usize = (4 - len % 4) % 4;
        if available - 4 < len || available - 4 - len < pad {
            return Err(Error::UnexpectedEnd);
        }
        let start = self.pos + 4;
        let mut out: Vec<u8> = Vec::new();
        let mut i: usize = 0;
        while i < len
            invariant
                self.pos == old(self).pos,
                self.input == old(self).input,
                start == self.pos + 4,
                start + len <= self.input@.len(),
                start + len <= usize::MAX,
                i <= len,
                out@ == self.input@.subrange(start as int, start + i),
            decreases len - i,
        {
            out.push(self.input[start + i]);
            i = i + 1;
            assert(out@ =~= self.input@.subrange(start as int, start + i));
        }
        self.pos = start + len + pad;
        proof {
            assert(out@ =~= opaque_payload(old(self)@));
            assert(self@ =~= after(old(self)@, opaque_size(old(self)@)));
        }
        Ok(out)
    }

    /// Reads a string: opaque data whose payload must be valid UTF-8. Input
    /// that ends too soon is refused and nothing is read; a payload that is
    /// not UTF-8 is refused once read.
    pub fn deserialize_string(&mut self) -> (r: Result<String, Error>)
        requires
            old(self).wf(),
        ensures
            final(self).wf(),
            has_opaque(old(self)@) && valid_utf8(opaque_payload(old(self)@)) ==> (r matches Ok(t)
                && t@ == decode_utf8(opaque_payload(old(self)@))),
            has_opaque(old(self)@) && !valid_utf8(opaque_payload(old(self)@)) ==> r
                == Err::<String, Error>(Error::InvalidUtf8),
            has_opaque(old(self)@) ==> final(self)@ == after(old(self)@, opaque_size(old(self)@)),
            !has_opaque(old(self)@) ==> r == Err::<String, Error>(Error::UnexpectedEnd)
                && final(self)@ == old(self)@,
    {
        let bytes = match self.deserialize_bytes() {
            Ok(b) => b,
            Err(e) => return Err(e),
        };
        match string_from_utf8(bytes) {
            Some(t) => Ok(t),
            None => Err(Error::InvalidUtf8),
        }
    }

    /// Refuses to guess a shape: XDR does not describe itself.
    pub fn deserialize_any(&mut self) -> (r: Result<(), Error>)
        ensures
            r == Err::<(), Error>(Error::DeserializeUnknownType),
            final(self)@ == old(self)@,
    {
        Err(Error::DeserializeUnknownType)
    }

    /// Refuses to skip a value of unknown shape.
    pub fn deserialize_ignored_any(&mut self) -> (r: Result<(), Error>)
        ensures
            r == Err::<(), Error>(Error::DeserializeUnknownType),
            final(self)@ == old(self)@,
    {
        Err(Error::DeserializeUnknownType)
    }

    /// Refuses a request for the shape `char`, which this codec does not decode.
    pub fn deserialize_char(&mut self) -> (r: Result<(), Error>)
        ensures
            rejects(r, "char"@),
            final(self)@ == old(self)@,
    {
        unsupported("char")
    }

    /// Refuses a request for the shape `option`, which this codec does not decode.
    pub fn deserialize_option(&mut self) -> (r: Result<(), Error>)
        ensures
            rejects(r, "option"@),
            final(self)@ == old(self)@,
    {
        unsupported("option")
    }

    /// Refuses a request for the shape `unit`, which this codec does not decode.
    pub fn deserialize_unit(&mut self) -> (r: Result<(), Error>)
        ensures
            rejects(r, "unit"@),
            final(self)@ == old(self)@,
    {
        unsupported("unit")
    }

    /// Refuses a request for the shape `unit_struct`, which this codec does not decode.
    pub fn deserialize_unit_struct(&mut self) -> (r: Result<(), Error>)
        ensures
            rejects(r, "unit_struct"@),
            final(self)@ == old(self)@,
    {
        unsupported("unit_struct")
    }

    /// Refuses a request for the shape `newtype_struct`, which this codec does not decode.
    pub fn deserialize_newtype_struct(&mut self) -> (r: Result<(), Error>)
        ensures
            rejects(r, "newtype_struct"@),
            final(self)@ == old(self)@,
    {
        unsupported("newtype_struct")
    }

    /// Refuses a request for the shape `seq`, which this codec does not decode.
    pub fn deserialize_seq(&mut self) -> (r: Result<(), Error>)
        ensures
            rejects(r, "seq"@),
            final(self)@ == old(self)@,
    {
        unsupported("seq")
    }

    /// Refuses a request for the shape `tuple`, which this codec does not decode.
    pub fn deserialize_tuple(&mut self) -> (r: Result<(), Error>)
        ensures
            rejects(r, "tuple"@),
            final(self)@ == old(self)@,
    {
        unsupported("tuple")
    }

    /// Refuses a request for the shape `tuple_struct`, which this codec does not decode.
    pub fn deserialize_tuple_struct(&mut self) -> (r: Result<(), Error>)
        ensures
            rejects(r, "tuple_struct"@),
            final(self)@ == old(self)@,
    {
        unsupported("tuple_struct")
    }

    /// Refuses a request for the shape `map`, which this codec does not decode.
    pub fn deserialize_map(&mut self) -> (r: Result<(), Error>)
        ensures
            rejects(r, "map"@),
            final(self)@ == old(self)@,
    {
        unsupported("map")
    }

    /// Refuses a request for the shape `struct`, which this codec does not decode.
    pub fn deserialize_struct(&mut self) -> (r: Result<(), Error>)
        ensures
            rejects(r, "struct"@),
            final(self)@ == old(self)@,
    {
        unsupported("struct")
    }

    /// Refuses a request for the shape `enum`, which this codec does not decode.
    pub fn deserialize_enum(&mut self) -> (r: Result<(), Error>)
        ensures
            rejects(r, "enum"@),
            final(self)@ == old(self)@,
    {
        unsupported("enum")
    }

    /// Refuses a request for the shape `identifier`, which this codec does not decode.
    pub fn deserialize_identifier(&mut self) -> (r: Result<(), Error>)
        ensures
            rejects(r, "identifier"@),
            final(self)@ == old(self)@,
    {
        unsupported("identifier")
    }
}

/// Relies on `String::from_utf8`: it succeeds exactly on valid UTF-8, and the
/// string it returns holds the characters those bytes encode.
#[verifier::external_body]
fn string_from_utf8(bytes: Vec<u8>) -> (r: Option<String>)
    ensures
        r is Some <==> valid_utf8(bytes@),
        r matches Some(t) ==> t@ == decode_utf8(bytes@),
{
    match String::from_utf8(bytes) {
        Ok(t) => Some(t),
        Err(_) => None,
    }
}

} // verus!
