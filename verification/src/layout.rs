//! Address width and byte order of an object file.

use vstd::prelude::*;

verus! {

/// Width of an address in the object, fixed by the object's class.
#[derive(Clone, Copy, Debug, PartialEq, Eq, Structural)]
pub enum AddressWidth {
    /// 32-bit object: addresses take four bytes.
    Bits32,
    /// 64-bit object: addresses take eight bytes.
    Bits64,
}

/// Byte order of the integers stored in the object.
#[derive(Clone, Copy, Debug, PartialEq, Eq, Structural)]
pub enum ByteOrder {
    /// Least significant byte first.
    LittleEndian,
    /// Most significant byte first.
    BigEndian,
}

impl AddressWidth {
    /// Number of bytes that one address occupies.
    pub open spec fn spec_bytes(self) -> nat {
        match self {
            AddressWidth::Bits32 => 4,
            AddressWidth::Bits64 => 8,
        }
    }

    /// Number of bytes that one address occupies.
    pub fn bytes(self) -> (n: usize)
        ensures
            n == self.spec_bytes(),
    {
        match self {
            AddressWidth::Bits32 => 4,
            AddressWidth::Bits64 => 8,
        }
    }

    /// The width of a 64-bit object if `is_64` holds, of a 32-bit one otherwise.
    pub fn from_is_64(is_64: bool) -> (w: AddressWidth)
        ensures
            w == Self::spec_from_is_64(is_64),
    {
        if is_64 {
            AddressWidth::Bits64
        } else {
            AddressWidth::Bits32
        }
    }

    /// The width of a 64-bit object if `is_64` holds, of a 32-bit one otherwise.
    pub open spec fn spec_from_is_64(is_64: bool) -> AddressWidth {
        if is_64 {
            AddressWidth::Bits64
        } else {
            AddressWidth::Bits32
        }
    }
}

impl ByteOrder {
    /// Little endian if `little_endian` holds, big endian otherwise.
    pub fn from_little_endian(little_endian: bool) -> (o: ByteOrder)
        ensures
            o == Self::spec_from_little_endian(little_endian),
    {
        if little_endian {
            ByteOrder::LittleEndian
        } else {
            ByteOrder::BigEndian
        }
    }

    /// Little endian if `little_endian` holds, big endian otherwise.
    pub open spec fn spec_from_little_endian(little_endian: bool) -> ByteOrder {
        if little_endian {
            ByteOrder::LittleEndian
        } else {
            ByteOrder::BigEndian
        }
    }
}

} // verus!
