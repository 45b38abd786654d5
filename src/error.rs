use vstd::prelude::*;

verus! {

/// What the codec reports when it cannot encode or decode a value.
#[derive(Debug, Clone, PartialEq, Eq)]
pub enum Error {
    /// The value's shape, or the requested shape, is not one the codec
    /// handles; carries the name of that shape.
    InvalidDataType(String),
    /// A decode was asked to find out the shape by itself, which XDR cannot do.
    DeserializeUnknownType,
    /// The input ended before the value that was asked for was complete.
    UnexpectedEnd,
    /// A 32-bit container held a value outside the range of `i8`.
    InvalidInteger8(i32),
    /// A 32-bit container held a value outside the range of `i16`.
    InvalidInteger16(i32),
    /// A 32-bit container held a value outside the range of `u8`.
    InvalidUnsignedInteger8(u32),
    /// A 32-bit container held a value outside the range of `u16`.
    InvalidUnsignedInteger16(u32),
    /// A boolean held a value other than `0` or `1`.
    InvalidBool(u32),
    /// Opaque data or a string too long for its 32-bit length prefix.
    LengthTooLarge(usize),
    /// A string's payload was not valid UTF-8.
    InvalidUtf8,
}

} // verus!

verus! {

/// `r` is the refusal of a shape named `kind`.
pub open spec fn rejects<T>(r: Result<T, Error>, kind: Seq<char>) -> bool {
    match r {
        Err(Error::InvalidDataType(name)) => name@ == kind,
        _ => false,
    }
}

/// The refusal of a shape named `kind`.
pub(crate) fn unsupported<T>(kind: &str) -> (r: Result<T, Error>)
    ensures
        rejects(r, kind@),
{
    Err(Error::InvalidDataType(kind.to_string()))
}

} // verus!
