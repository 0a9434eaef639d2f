//! Address-sized integers of a note descriptor.

use vstd::prelude::*;

use crate::error::UsdtError;
use crate::layout::{AddressWidth, ByteOrder};

verus! {

/// Value of `bytes` read as an unsigned integer, least significant byte first.
pub open spec fn le_value(bytes: Seq<u8>) -> nat
    decreases bytes.len(),
{
    if bytes.len() == 0 {
        0
    } else {
        bytes[0] as nat + 256 * le_value(bytes.skip(1))
    }
}

/// Value of `bytes` read as an unsigned integer, most significant byte first.
pub open spec fn be_value(bytes: Seq<u8>) -> nat
    decreases bytes.len(),
{
    if bytes.len() == 0 {
        0
    } else {
        256 * be_value(bytes.drop_last()) + bytes.last() as nat
    }
}

/// Value of `bytes` read as an unsigned integer in the given byte order.
pub open spec fn address_value(bytes: Seq<u8>, order: ByteOrder) -> nat {
    match order {
        ByteOrder::LittleEndian => le_value(bytes),
        ByteOrder::BigEndian => be_value(bytes),
    }
}

/// 256 to the power `n`.
pub open spec fn pow256(n: nat) -> nat
    decreases n,
{
    if n == 0 {
        1
    } else {
        256 * pow256((n - 1) as nat)
    }
}

/// An integer of `n` bytes is below 256 to the power `n`, in either order.
pub proof fn lemma_value_bound(bytes: Seq<u8>)
    ensures
        le_value(bytes) < pow256(bytes.len()),
        be_value(bytes) < pow256(bytes.len()),
    decreases bytes.len(),
{
    if bytes.len() > 0 {
        lemma_value_bound(bytes.skip(1));
        lemma_value_bound(bytes.drop_last());
    }
}

/// 256 to the power `n` grows with `n`.
pub proof fn lemma_pow256_monotonic(m: nat, n: nat)
    requires
        m <= n,
    ensures
        pow256(m) <= pow256(n),
    decreases n,
{
    if m < n {
        lemma_pow256_monotonic(m, (n - 1) as nat);
    }
}

/// 256 to the power 4 is 2 to the power 32, and 256 to the power 8 is 2 to
/// the power 64.
pub proof fn lemma_pow256_values()
    ensures
        pow256(4) == 0x1_0000_0000,
        pow256(8) == 0x1_0000_0000_0000_0000,
{
    reveal_with_fuel(pow256, 9);
}

/// The address stored in `desc` at `offset`: `TruncatedNote` where fewer bytes
/// are left than the width asks for, else the value of those bytes in the
/// given order. An address has at most eight bytes, so its value is a `u64`.
pub open spec fn spec_read_address(
    desc: Seq<u8>,
    offset: int,
    width: AddressWidth,
    order: ByteOrder,
) -> Result<u64, UsdtError> {
    if 0 <= offset && offset + width.spec_bytes() <= desc.len() {
        Ok(address_value(desc.subrange(offset, offset + width.spec_bytes()), order) as u64)
    } else {
        Err(UsdtError::TruncatedNote)
    }
}

/// Reads an 'address size' number of bytes from the note description at
/// `offset`, as an unsigned integer in the given byte order. A 32-bit
/// address is widened to 64 bits.
pub fn read_usize_from_desc(desc: &[u8], offset: usize, width: AddressWidth, order: ByteOrder) -> (r:
    Result<u64, UsdtError>)
    ensures
        r == spec_read_address(desc@, offset as int, width, order),
{
    let n = width.bytes();
    if desc.len() < n || offset > desc.len() - n {
        return Err(UsdtError::TruncatedNote);
    }
    let ghost bytes = desc@.subrange(offset as int, offset + n);
    let mut value: u64 = 0;
    let mut i: usize = 0;
    while i < n
        invariant
            n == 4 || n == 8,
            i <= n,
            offset + n <= desc.len(),
            bytes == desc@.subrange(offset as int, offset + n),
            order == ByteOrder::BigEndian ==> value == be_value(bytes.take(i as int)),
            order == ByteOrder::LittleEndian ==> value == le_value(bytes.skip(n - i)),
        decreases n - i,
    {
        let byte = match order {
            ByteOrder::BigEndian => desc[offset + i],
            ByteOrder::LittleEndian => desc[offset + (n - 1 - i)],
        };
        proof {
            lemma_pow256_values();
            match order {
                ByteOrder::BigEndian => {
                    let next = bytes.take(i + 1);
                    assert(next.drop_last() == bytes.take(i as int));
                    lemma_value_bound(bytes.take(i as int));
                    lemma_pow256_monotonic(i as nat, 7);
                },
                ByteOrder::LittleEndian => {
                    let next = bytes.skip(n - i - 1);
                    assert(next.skip(1) == bytes.skip(n - i));
                    lemma_value_bound(bytes.skip(n - i));
                    lemma_pow256_monotonic(i as nat, 7);
                },
            }
        }
        value = value * 256 + byte as u64;
        i += 1;
    }
    proof {
        assert(bytes.take(n as int) == bytes);
        assert(bytes.skip(0) == bytes);
    }
    Ok(value)
}

/// The `n` low bytes of `value`, least significant byte first.
pub open spec fn le_bytes(value: nat, n: nat) -> Seq<u8>
    decreases n,
{
    if n == 0 {
        Seq::empty()
    } else {
        seq![(value % 256) as u8] + le_bytes(value / 256, (n - 1) as nat)
    }
}

/// The `n` low bytes of `value`, most significant byte first.
pub open spec fn be_bytes(value: nat, n: nat) -> Seq<u8>
    decreases n,
{
    if n == 0 {
        Seq::empty()
    } else {
        be_bytes(value / 256, (n - 1) as nat).push((value % 256) as u8)
    }
}

/// The bytes that store `value` as an address of the given width and byte
/// order. A 32-bit address keeps the low 32 bits.
pub open spec fn address_bytes(value: u64, width: AddressWidth, order: ByteOrder) -> Seq<u8> {
    match order {
        ByteOrder::LittleEndian => le_bytes(value as nat, width.spec_bytes()),
        ByteOrder::BigEndian => be_bytes(value as nat, width.spec_bytes()),
    }
}

/// What is left of `value` in an address of the given width.
pub open spec fn truncate_address(value: u64, width: AddressWidth) -> u64 {
    match width {
        AddressWidth::Bits32 => (value % 0x1_0000_0000) as u64,
        AddressWidth::Bits64 => value,
    }
}

/// `n` bytes are `n` bytes, in either order.
pub proof fn lemma_bytes_len(value: nat, n: nat)
    ensures
        le_bytes(value, n).len() == n,
        be_bytes(value, n).len() == n,
    decreases n,
{
    if n > 0 {
        lemma_bytes_len(value / 256, (n - 1) as nat);
    }
}

/// Reading back the `n` low bytes of `value` gives `value` modulo 256 to the
/// power `n`, in either order.
pub proof fn lemma_value_of_bytes(value: nat, n: nat)
    ensures
        le_value(le_bytes(value, n)) == value % pow256(n),
        be_value(be_bytes(value, n)) == value % pow256(n),
    decreases n,
{
    if n > 0 {
        let m = (n - 1) as nat;
        lemma_value_of_bytes(value / 256, m);
        lemma_pow256_monotonic(0, m);
        vstd::arithmetic::div_mod::lemma_mod_breakdown(value as int, 256, pow256(m) as int);
        let le = le_bytes(value, n);
        assert(le.skip(1) =~= le_bytes(value / 256, m));
        let be = be_bytes(value, n);
        assert(be.drop_last() =~= be_bytes(value / 256, m));
    }
}

/// Width and order independence of one address: stored in any of the four
/// layouts and read back in the same, an address keeps its value, but for
/// the 32-bit layouts, which keep the low 32 bits.
pub proof fn lemma_address_round_trip(value: u64, width: AddressWidth, order: ByteOrder)
    ensures
        address_bytes(value, width, order).len() == width.spec_bytes(),
        address_value(address_bytes(value, width, order), order) == truncate_address(value, width),
{
    lemma_bytes_len(value as nat, width.spec_bytes());
    lemma_value_of_bytes(value as nat, width.spec_bytes());
    lemma_pow256_values();
    match width {
        AddressWidth::Bits32 => {
            assert(value as nat % pow256(4) == value as nat % 0x1_0000_0000);
        },
        AddressWidth::Bits64 => {
            assert(value as nat % pow256(8) == value as nat % 0x1_0000_0000_0000_0000);
            assert(value as nat % 0x1_0000_0000_0000_0000 == value);
        },
    }
}

} // verus!
