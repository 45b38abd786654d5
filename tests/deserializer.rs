use xdr_codec::{Deserializer, Error};

#[test]
fn mod_deserialize_i8() {
    let mut deserializer = Deserializer::new(vec![0xff, 0xff, 0xff, 0xfe]);
    let result = deserializer.deserialize_i8().unwrap();
    assert_eq!(result, -2);
}

#[test]
fn tests_deserialize_i8() {
    let mut deserializer = Deserializer::new(vec![0xff, 0xff, 0xff, 0xfe]);
    let result = deserializer.deserialize_i8().unwrap();
    assert_eq!(result, -2);
}

#[test]
fn deserialize_i16() {
    let mut deserializer = Deserializer::new(vec![0xff, 0xff, 0xef, 0xfe]);
    let result = deserializer.deserialize_i16().unwrap();
    let value_bits: u16 = 0xeffe;
    let expected_value = -((!value_bits) as i16 + 1);
    assert_eq!(result, expected_value);
}

#[test]
fn deserialize_i32() {
    let mut deserializer = Deserializer::new(vec![0x80, 0x00, 0x00, 0x00]);
    let result = deserializer.deserialize_i32().unwrap();
    assert_eq!(result, -2_147_483_648);
}

#[test]
fn deserialize_i64() {
    let mut deserializer =
        Deserializer::new(vec![0xff, 0xff, 0xff, 0xff, 0xff, 0xff, 0xff, 0xff]);
    let result = deserializer.deserialize_i64().unwrap();
    assert_eq!(result, -1);
}

#[test]
fn deserialize_u8() {
    let mut deserializer = Deserializer::new(vec![0x00, 0x00, 0x00, 0x0e]);
    let result = deserializer.deserialize_u8().unwrap();
    assert_eq!(result, 14);
}

#[test]
fn deserialize_u16() {
    let mut deserializer = Deserializer::new(vec![0x00, 0x00, 0x10, 0x0e]);
    let result = deserializer.deserialize_u16().unwrap();
    assert_eq!(result, 4110);
}

#[test]
fn deserialize_u32() {
    let mut deserializer = Deserializer::new(vec![0x80, 0x00, 0x10, 0x0e]);
    let result = deserializer.deserialize_u32().unwrap();
    assert_eq!(result, 0x8000_100e);
}

#[test]
fn deserialize_u64() {
    let mut deserializer =
        Deserializer::new(vec![0x80, 0x00, 0x00, 0x00, 0x00, 0x00, 0x00, 0x00]);
    let result = deserializer.deserialize_u64().unwrap();
    assert_eq!(result, 0x8000_0000_0000_0000);
}

#[test]
fn deserialize_short_input_reads_nothing() {
    let mut deserializer = Deserializer::new(vec![0x00, 0x00, 0x01]);
    assert_eq!(deserializer.deserialize_u32(), Err(Error::UnexpectedEnd));
    assert_eq!(deserializer.remaining(), 3);
    assert_eq!(deserializer.deserialize_u64(), Err(Error::UnexpectedEnd));
    assert_eq!(deserializer.deserialize_i8(), Err(Error::UnexpectedEnd));
}

#[test]
fn deserialize_reads_values_in_sequence() {
    let mut deserializer = Deserializer::new(vec![0, 0, 0, 1, 0xff, 0xff, 0xff, 0xfb, 9]);
    assert_eq!(deserializer.deserialize_bool(), Ok(true));
    assert_eq!(deserializer.deserialize_i16(), Ok(-5));
    assert_eq!(deserializer.remaining(), 1);
}

#[test]
fn deserialize_i8_refuses_128() {
    let mut deserializer = Deserializer::new(vec![0x00, 0x00, 0x00, 0x80]);
    assert_eq!(deserializer.deserialize_i8(), Err(Error::InvalidInteger8(128)));
}

#[test]
fn deserialize_i8_refuses_minus_129() {
    let mut deserializer = Deserializer::new(vec![0xff, 0xff, 0xff, 0x7f]);
    assert_eq!(deserializer.deserialize_i8(), Err(Error::InvalidInteger8(-129)));
}

#[test]
fn deserialize_narrow_bounds() {
    assert_eq!(Deserializer::new(vec![0, 0, 0x80, 0]).deserialize_i16(), Err(Error::InvalidInteger16(0x8000)));
    assert_eq!(Deserializer::new(vec![0xff, 0xff, 0x80, 0]).deserialize_i16(), Ok(-0x8000));
    assert_eq!(Deserializer::new(vec![0, 0, 0, 0xff]).deserialize_u8(), Ok(255));
    assert_eq!(Deserializer::new(vec![0, 0, 1, 0]).deserialize_u8(), Err(Error::InvalidUnsignedInteger8(256)));
    assert_eq!(Deserializer::new(vec![0, 0, 0xff, 0xff]).deserialize_u16(), Ok(65535));
    assert_eq!(Deserializer::new(vec![0, 1, 0, 0]).deserialize_u16(), Err(Error::InvalidUnsignedInteger16(65536)));
}

#[test]
fn deserialize_bool_values() {
    assert_eq!(Deserializer::new(vec![0, 0, 0, 0]).deserialize_bool(), Ok(false));
    assert_eq!(Deserializer::new(vec![0, 0, 0, 1]).deserialize_bool(), Ok(true));
    assert_eq!(Deserializer::new(vec![0, 0, 0, 2]).deserialize_bool(), Err(Error::InvalidBool(2)));
}

#[test]
fn deserialize_bytes_skips_padding() {
    let mut deserializer = Deserializer::new(vec![0, 0, 0, 3, 7, 8, 9, 0, 0, 0, 0, 4]);
    assert_eq!(deserializer.deserialize_bytes(), Ok(vec![7, 8, 9]));
    assert_eq!(deserializer.remaining(), 4);
    assert_eq!(deserializer.deserialize_u32(), Ok(4));
}

#[test]
fn deserialize_bytes_short_input_reads_nothing() {
    let mut deserializer = Deserializer::new(vec![0, 0, 0, 3, 7, 8, 9]);
    assert_eq!(deserializer.deserialize_bytes(), Err(Error::UnexpectedEnd));
    assert_eq!(deserializer.remaining(), 7);
}

#[test]
fn deserialize_string_values() {
    let mut deserializer = Deserializer::new(vec![0, 0, 0, 2, b'h', b'i', 0, 0]);
    assert_eq!(deserializer.deserialize_string(), Ok("hi".to_string()));
    let mut bad = Deserializer::new(vec![0, 0, 0, 2, 0xc3, 0x28, 0, 0]);
    assert_eq!(bad.deserialize_string(), Err(Error::InvalidUtf8));
    assert_eq!(bad.remaining(), 0);
}

#[test]
fn deserialize_unknown_shape_is_refused() {
    let mut deserializer = Deserializer::new(vec![0, 0, 0, 1]);
    assert_eq!(deserializer.deserialize_any(), Err(Error::DeserializeUnknownType));
    assert_eq!(deserializer.deserialize_ignored_any(), Err(Error::DeserializeUnknownType));
    assert_eq!(deserializer.remaining(), 4);
}

#[test]
fn deserialize_unsupported_shapes_are_refused() {
    let mut d = Deserializer::new(vec![0, 0, 0, 1]);
    let kind = |name: &str| Err(Error::InvalidDataType(name.to_string()));
    assert_eq!(d.deserialize_char(), kind("char"));
    assert_eq!(d.deserialize_option(), kind("option"));
    assert_eq!(d.deserialize_unit(), kind("unit"));
    assert_eq!(d.deserialize_unit_struct(), kind("unit_struct"));
    assert_eq!(d.deserialize_newtype_struct(), kind("newtype_struct"));
    assert_eq!(d.deserialize_seq(), kind("seq"));
    assert_eq!(d.deserialize_tuple(), kind("tuple"));
    assert_eq!(d.deserialize_tuple_struct(), kind("tuple_struct"));
    assert_eq!(d.deserialize_map(), kind("map"));
    assert_eq!(d.deserialize_struct(), kind("struct"));
    assert_eq!(d.deserialize_enum(), kind("enum"));
    assert_eq!(d.deserialize_identifier(), kind("identifier"));
    assert_eq!(d.remaining(), 4);
}
