use vstd::prelude::*;

verus! {

/// The order in which the bytes of a multi-byte scalar are stored.
#[derive(Debug, Clone, Copy, PartialEq, Eq, Structural)]
pub enum Endianness {
    Little,
    Big,
}

/// The byte order that a buffer's first two bytes announce: `II` for little
/// endian, `MM` for big endian, nothing for anything else.
pub open spec fn byte_order_of(bytes: Seq<u8>) -> Option<Endianness> {
    if bytes.len() < 2 {
        None
    } else if bytes[0] == 0x49 && bytes[1] == 0x49 {
        Some(Endianness::Little)
    } else if bytes[0] == 0x4D && bytes[1] == 0x4D {
        Some(Endianness::Big)
    } else {
        None
    }
}

/// The number whose `width` base-256 digits start at `at`, least
/// significant digit first.
pub open spec fn le_value(bytes: Seq<u8>, at: int, width: nat) -> nat
    decreases width,
{
    if width == 0 {
        0
    } else {
        bytes[at] as nat + 256 * le_value(bytes, at + 1, (width - 1) as nat)
    }
}

/// The number whose `width` base-256 digits start at `at`, most significant
/// digit first.
pub open spec fn be_value(bytes: Seq<u8>, at: int, width: nat) -> nat
    decreases width,
{
    if width == 0 {
        0
    } else {
        256 * be_value(bytes, at, (width - 1) as nat) + bytes[at + width - 1] as nat
    }
}

/// The unsigned number that `width` bytes at `at` encode in the given order.
pub open spec fn scalar_at(bytes: Seq<u8>, at: int, width: nat, order: Endianness) -> nat {
    match order {
        Endianness::Little => le_value(bytes, at, width),
        Endianness::Big => be_value(bytes, at, width),
    }
}

/// Whether `width` bytes starting at `at` lie inside the buffer.
pub open spec fn in_bounds(bytes: Seq<u8>, at: int, width: int) -> bool {
    0 <= at && at + width <= bytes.len()
}

/// The unsigned number that the two bytes at `at` encode.
pub open spec fn u16_at(bytes: Seq<u8>, at: int, order: Endianness) -> u16 {
    scalar_at(bytes, at, 2, order) as u16
}

/// The unsigned number that the four bytes at `at` encode.
pub open spec fn u32_at(bytes: Seq<u8>, at: int, order: Endianness) -> u32 {
    scalar_at(bytes, at, 4, order) as u32
}

/// The unsigned number that the eight bytes at `at` encode.
pub open spec fn u64_at(bytes: Seq<u8>, at: int, order: Endianness) -> u64 {
    scalar_at(bytes, at, 8, order) as u64
}

/// The two's-complement reading of two bytes.
pub open spec fn i16_at(bytes: Seq<u8>, at: int, order: Endianness) -> i16 {
    let raw = scalar_at(bytes, at, 2, order);
    if raw >= 32768 {
        (raw - 65536) as i16
    } else {
        raw as i16
    }
}

/// A scalar of `width` bytes is below `256^width`.
pub proof fn lemma_scalar_bound(bytes: Seq<u8>, at: int, order: Endianness)
    ensures
        scalar_at(bytes, at, 2, order) < 0x1_0000,
        scalar_at(bytes, at, 4, order) < 0x1_0000_0000,
        scalar_at(bytes, at, 8, order) <= u64::MAX,
{
    reveal_with_fuel(le_value, 9);
    reveal_with_fuel(be_value, 9);
}

/// Reversing the bytes and the order together leaves the value as it was.
pub proof fn lemma_mirrored_scalar(a: Seq<u8>, b: Seq<u8>, at_a: int, at_b: int, width: nat)
    requires
        forall|k: int| 0 <= k < width ==> #[trigger] a[at_a + k] == b[at_b + width - 1 - k],
    ensures
        le_value(a, at_a, width) == be_value(b, at_b, width),
    decreases width,
{
    if width > 0 {
        let w = (width - 1) as nat;
        assert(a[at_a + 0] == b[at_b + width - 1 - 0]);
        assert forall|k: int| 0 <= k < w implies #[trigger] a[at_a + 1 + k] == b[at_b + w - 1 - k] by {
            assert(a[at_a + (k + 1)] == b[at_b + width - 1 - (k + 1)]);
        }
        lemma_mirrored_scalar(a, b, at_a + 1, at_b, w);
    }
}

} // verus!
