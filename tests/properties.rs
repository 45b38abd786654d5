use xdr_codec::{Deserializer, Error, Serializer};

fn encode(f: impl FnOnce(&mut Serializer) -> Result<(), Error>) -> Vec<u8> {
    let mut serializer = Serializer::new();
    f(&mut serializer).unwrap();
    serializer.into_bytes()
}

#[test]
fn i8_round_trip_for_every_value() {
    for v in i8::MIN..=i8::MAX {
        let bytes = encode(|s| s.serialize_i8(v));
        assert_eq!(bytes.len(), 4);
        let mut deserializer = Deserializer::new(bytes);
        assert_eq!(deserializer.deserialize_i8(), Ok(v));
        assert_eq!(deserializer.remaining(), 0);
    }
}

#[test]
fn i8_overflow_through_the_encoder() {
    let bytes = encode(|s| s.serialize_i32(128));
    assert_eq!(Deserializer::new(bytes).deserialize_i8(), Err(Error::InvalidInteger8(128)));
    let bytes = encode(|s| s.serialize_i32(-129));
    assert_eq!(Deserializer::new(bytes).deserialize_i8(), Err(Error::InvalidInteger8(-129)));
}

#[test]
fn big_endian_u32_and_i64() {
    assert_eq!(encode(|s| s.serialize_u32(0x8000_100e)), vec![0x80, 0x00, 0x10, 0x0e]);
    assert_eq!(encode(|s| s.serialize_i64(-1)), vec![0xff; 8]);
    assert_eq!(encode(|s| s.serialize_i32(-1)), vec![0xff; 4]);
    assert_eq!(encode(|s| s.serialize_u64(0x0102_0304_0506_0708)), vec![1, 2, 3, 4, 5, 6, 7, 8]);
    assert_eq!(encode(|s| s.serialize_i64(i64::MIN)), vec![0x80, 0, 0, 0, 0, 0, 0, 0]);
}

#[test]
fn boolean_mapping() {
    assert_eq!(encode(|s| s.serialize_bool(true)), vec![0, 0, 0, 1]);
    assert_eq!(encode(|s| s.serialize_bool(false)), vec![0, 0, 0, 0]);
}

#[test]
fn discriminant_300() {
    assert_eq!(encode(|s| s.serialize_unit_variant("name", 300, "4")), vec![0, 0, 0x01, 0x2c]);
}

#[test]
fn padding_law_for_each_remainder() {
    for len in 0..12usize {
        let data: Vec<u8> = (1..=len as u8).collect();
        let bytes = encode(|s| s.serialize_bytes(&data));
        let pad = (4 - len % 4) % 4;
        assert_eq!(bytes.len(), 4 + len + pad);
        assert_eq!(&bytes[..4], &(len as u32).to_be_bytes()[..]);
        assert_eq!(&bytes[4..4 + len], &data[..]);
        assert!(bytes[4 + len..].iter().all(|&b| b == 0));
        let mut deserializer = Deserializer::new(bytes);
        assert_eq!(deserializer.deserialize_bytes(), Ok(data));
        assert_eq!(deserializer.remaining(), 0);
    }
}

#[test]
fn widening_is_lossless() {
    for v in i8::MIN..=i8::MAX {
        assert_eq!(encode(|s| s.serialize_i8(v)), encode(|s| s.serialize_i32(v as i32)));
    }
    for v in [i16::MIN, -15000, -1, 0, 1, 15000, i16::MAX] {
        assert_eq!(encode(|s| s.serialize_i16(v)), encode(|s| s.serialize_i32(v as i32)));
    }
    for v in u8::MIN..=u8::MAX {
        assert_eq!(encode(|s| s.serialize_u8(v)), encode(|s| s.serialize_u32(v as u32)));
    }
    for v in [0u16, 1, 255, 256, 65412, u16::MAX] {
        assert_eq!(encode(|s| s.serialize_u16(v)), encode(|s| s.serialize_u32(v as u32)));
    }
}

#[test]
fn unsupported_shapes_write_nothing() {
    let mut s = Serializer::new();
    s.serialize_u32(7).unwrap();
    let kind = |name: &str| Err(Error::InvalidDataType(name.to_string()));
    assert_eq!(s.serialize_char('x'), kind("char"));
    assert_eq!(s.serialize_none(), kind("none"));
    assert_eq!(s.serialize_some(), kind("some(?)"));
    assert_eq!(s.serialize_unit(), kind("unit"));
    assert_eq!(s.serialize_unit_struct("u"), kind("unit_struct"));
    assert_eq!(s.serialize_newtype_struct("n"), kind("newtype_struct"));
    assert_eq!(s.serialize_newtype_variant("e", 1, "v"), kind("newtype_variant"));
    assert_eq!(s.serialize_seq(Some(2)), kind("seq"));
    assert_eq!(s.serialize_tuple(2), kind("tuple"));
    assert_eq!(s.serialize_tuple_struct("t", 2), kind("tuple_struct"));
    assert_eq!(s.serialize_tuple_variant("e", 1, "v", 2), kind("tuple_variant"));
    assert_eq!(s.serialize_map(None), kind("map"));
    assert_eq!(s.serialize_struct("s", 2), kind("struct"));
    assert_eq!(s.serialize_struct_variant("e", 1, "v", 2), kind("struct_variant"));
    assert_eq!(s.as_bytes(), &[0, 0, 0, 7][..]);
}

#[test]
fn string_round_trip() {
    let bytes = encode(|s| s.serialize_str("héllo"));
    assert_eq!(bytes.len(), 4 + 6 + 2);
    assert_eq!(Deserializer::new(bytes).deserialize_string(), Ok("héllo".to_string()));
}

#[test]
fn scalar_round_trips() {
    let mut s = Serializer::new();
    s.serialize_i16(-15000).unwrap();
    s.serialize_u16(65412).unwrap();
    s.serialize_u8(249).unwrap();
    s.serialize_i64(6_980_010_427_672).unwrap();
    s.serialize_u64(27_422_481_429).unwrap();
    s.serialize_bool(true).unwrap();
    let mut d = Deserializer::new(s.into_bytes());
    assert_eq!(d.deserialize_i16(), Ok(-15000));
    assert_eq!(d.deserialize_u16(), Ok(65412));
    assert_eq!(d.deserialize_u8(), Ok(249));
    assert_eq!(d.deserialize_i64(), Ok(6_980_010_427_672));
    assert_eq!(d.deserialize_u64(), Ok(27_422_481_429));
    assert_eq!(d.deserialize_bool(), Ok(true));
    assert_eq!(d.remaining(), 0);
}
