//! An XDR (RFC 4506) codec: a big-endian, four-byte aligned binary encoding.
//!
//! `wire` states the wire format, `ser` writes values into a byte buffer and
//! `de` reads them back, validating each value against its target width;
//! `laws` proves that what is written reads back unchanged.
mod wire;
mod error;
mod ser;
mod de;
mod laws;

pub use wire::{
    be_bytes, be_value, byte_base, enc_u32, enc_u64, enc_i32, enc_i64, enc_i8, enc_i16, enc_u8,
    enc_u16, enc_bool, pad_len, enc_opaque, signed32, signed64, lemma_be_round_trip,
    lemma_widening_lossless, lemma_padding_law,
};
pub use error::Error;
pub use ser::Serializer;
pub use de::Deserializer;
pub use laws::{
    lemma_i8_round_trip, lemma_i8_overflow, lemma_scalar_round_trips, lemma_opaque_round_trip,
};
pub use de::{
    word32, word64, after, read_u32, read_i32, read_u64, read_i64, read_i8, read_i16, read_u8,
    read_u16, read_bool, opaque_size, has_opaque, opaque_payload,
};
pub use error::rejects;
