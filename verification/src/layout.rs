use vstd::prelude::*;
use crate::binary64::{binary64_of_nat, truncated, widen_binary32};
use crate::bytes::{Endianness, in_bounds, u16_at, u32_at, u64_at};
use crate::directory::{IfdEntry, IfdModel, PayloadModel, TagClass, TiffDataType, class_of};
use crate::error::TiffError;

verus! {

/// The text that a span of bytes stands for, where every run of bytes that
/// is not valid UTF-8 is replaced by the replacement character.
pub uninterp spec fn lossy_text(bytes: Seq<u8>) -> Seq<char>;

/// The directory entry whose twelve bytes start at `at`.
pub open spec fn entry_at(bytes: Seq<u8>, at: int, order: Endianness) -> IfdEntry {
    IfdEntry {
        tag: u16_at(bytes, at, order),
        field_type: u16_at(bytes, at + 2, order),
        count: u32_at(bytes, at + 4, order),
        value_offset: u32_at(bytes, at + 8, order),
    }
}

/// The whole number of 32 bits that the number of the given type at `at`
/// is cut down to. A whole number is itself; a floating-point number
/// loses its fraction, and has none where what is left does not fit.
pub open spec fn integer_element(
    bytes: Seq<u8>,
    order: Endianness,
    kind: TiffDataType,
    at: int,
) -> Option<u32> {
    match kind {
        TiffDataType::Short => Some(u16_at(bytes, at, order) as u32),
        TiffDataType::Long => Some(u32_at(bytes, at, order)),
        TiffDataType::Float => truncated(widen_binary32(u32_at(bytes, at, order)) as u64),
        TiffDataType::Double => truncated(u64_at(bytes, at, order)),
    }
}

/// The bit pattern of the double that equals the number of the given type
/// at `at`.
pub open spec fn double_element(
    bytes: Seq<u8>,
    order: Endianness,
    kind: TiffDataType,
    at: int,
) -> u64 {
    match kind {
        TiffDataType::Short => binary64_of_nat(u16_at(bytes, at, order) as nat) as u64,
        TiffDataType::Long => binary64_of_nat(u32_at(bytes, at, order) as nat) as u64,
        TiffDataType::Float => widen_binary32(u32_at(bytes, at, order)) as u64,
        TiffDataType::Double => u64_at(bytes, at, order),
    }
}

/// The vector of whole numbers that an entry points to. An empty vector
/// needs no type. Otherwise the type must be one of the four that can be
/// decoded, all of the vector must lie inside the buffer, and every number
/// of it must have a whole number of 32 bits: a floating-point number that
/// has none makes the type an invalid one for the tag.
pub open spec fn integer_vector(bytes: Seq<u8>, order: Endianness, entry: IfdEntry) -> Result<
    Seq<u32>,
    TiffError,
> {
    if entry.count == 0 {
        Ok(Seq::empty())
    } else {
        match TiffDataType::of_code(entry.field_type) {
            Some(kind) => if !in_bounds(
                bytes,
                entry.value_offset as int,
                entry.count * kind.spec_width(),
            ) {
                Err(TiffError::IntegrityError)
            } else if exists|k: int|
                0 <= k < entry.count && (#[trigger] integer_element(
                    bytes,
                    order,
                    kind,
                    entry.value_offset + k * kind.spec_width(),
                )) is None {
                Err(TiffError::InvalidDataType)
            } else {
                Ok(
                    Seq::new(
                        entry.count as nat,
                        |k: int|
                            integer_element(
                                bytes,
                                order,
                                kind,
                                entry.value_offset + k * kind.spec_width(),
                            )->Some_0,
                    ),
                )
            },
            None => Err(TiffError::InvalidDataType),
        }
    }
}

/// The vector of doubles that an entry points to, each as its bit pattern.
/// An empty vector needs no type. Otherwise the type must be one of the
/// four that can be decoded, and all of the vector must lie inside the
/// buffer.
pub open spec fn double_vector(bytes: Seq<u8>, order: Endianness, entry: IfdEntry) -> Result<
    Seq<u64>,
    TiffError,
> {
    if entry.count == 0 {
        Ok(Seq::empty())
    } else {
        match TiffDataType::of_code(entry.field_type) {
            Some(kind) => if !in_bounds(
                bytes,
                entry.value_offset as int,
                entry.count * kind.spec_width(),
            ) {
                Err(TiffError::IntegrityError)
            } else {
                Ok(
                    Seq::new(
                        entry.count as nat,
                        |k: int|
                            double_element(
                                bytes,
                                order,
                                kind,
                                entry.value_offset + k * kind.spec_width(),
                            ),
                    ),
                )
            },
            None => Err(TiffError::InvalidDataType),
        }
    }
}

/// The text that an entry points to: `count` bytes at the offset.
pub open spec fn text_span(bytes: Seq<u8>, entry: IfdEntry) -> Result<Seq<char>, TiffError> {
    if !in_bounds(bytes, entry.value_offset as int, entry.count as int) {
        Err(TiffError::IntegrityError)
    } else {
        Ok(
            lossy_text(
                bytes.subrange(entry.value_offset as int, entry.value_offset + entry.count),
            ),
        )
    }
}

/// What an entry carries besides its four fields.
pub open spec fn payload_of(bytes: Seq<u8>, order: Endianness, entry: IfdEntry) -> Result<
    PayloadModel,
    TiffError,
> {
    match class_of(entry.tag) {
        TagClass::Integers => match integer_vector(bytes, order, entry) {
            Ok(items) => Ok(PayloadModel::Integers(items)),
            Err(e) => Err(e),
        },
        TagClass::Doubles => match double_vector(bytes, order, entry) {
            Ok(items) => Ok(PayloadModel::Doubles(items)),
            Err(e) => Err(e),
        },
        TagClass::Text => match text_span(bytes, entry) {
            Ok(text) => Ok(PayloadModel::Text(text)),
            Err(e) => Err(e),
        },
        _ => Ok(PayloadModel::Inline),
    }
}

/// The metadata after the entry, its payload decoded from the buffer.
pub open spec fn apply_entry(
    bytes: Seq<u8>,
    order: Endianness,
    ifd: IfdModel,
    entry: IfdEntry,
) -> Result<IfdModel, TiffError> {
    match payload_of(bytes, order, entry) {
        Ok(payload) => ifd.apply(entry, payload),
        Err(e) => Err(e),
    }
}

/// The metadata after `n` entries that start at `at`, or the first error
/// on the way.
pub open spec fn scan_entries(
    bytes: Seq<u8>,
    order: Endianness,
    at: int,
    n: nat,
    ifd: IfdModel,
) -> Result<IfdModel, TiffError>
    decreases n,
{
    if n == 0 {
        Ok(ifd)
    } else if !in_bounds(bytes, at, 12) {
        Err(TiffError::IntegrityError)
    } else {
        match apply_entry(bytes, order, ifd, entry_at(bytes, at, order)) {
            Ok(next) => scan_entries(bytes, order, at + 12, (n - 1) as nat, next),
            Err(e) => Err(e),
        }
    }
}

/// The metadata of the one directory of a file, or the error that the
/// file is refused with. In this order: the magic number must be 42 (43 is
/// refused on its own account), the directory and all that its entries
/// point to must lie inside the buffer and decode, no second directory may
/// follow, and the sample format may not be the undefined one.
pub open spec fn directory_of(bytes: Seq<u8>, order: Endianness) -> Result<IfdModel, TiffError> {
    if !in_bounds(bytes, 2, 2) {
        Err(TiffError::IntegrityError)
    } else if u16_at(bytes, 2, order) == 43 {
        Err(TiffError::UnsupportedBigVariant)
    } else if u16_at(bytes, 2, order) != 42 {
        Err(TiffError::BadMagicNumber)
    } else if !in_bounds(bytes, 4, 4) {
        Err(TiffError::IntegrityError)
    } else {
        let first = u32_at(bytes, 4, order) as int;
        if !in_bounds(bytes, first, 2) {
            Err(TiffError::IntegrityError)
        } else {
            let n = u16_at(bytes, first, order) as nat;
            match scan_entries(bytes, order, first + 2, n, IfdModel::empty()) {
                Ok(ifd) => if !in_bounds(bytes, first + 2 + 12 * n, 4) {
                    Err(TiffError::IntegrityError)
                } else if u32_at(bytes, first + 2 + 12 * n, order) != 0 {
                    Err(TiffError::ChainedDirectoryUnsupported)
                } else if ifd.sample_format == 4 {
                    Err(TiffError::UndefinedSampleFormat)
                } else {
                    Ok(ifd)
                },
                Err(e) => Err(e),
            }
        }
    }
}


/// Whether two buffers give the same `n` directory entries, each with the
/// same payload, from `at_a` in the one and from `at_b` in the other. The
/// two may differ in byte order and in where things lie.
pub open spec fn same_entries(
    a: Seq<u8>,
    order_a: Endianness,
    at_a: int,
    b: Seq<u8>,
    order_b: Endianness,
    at_b: int,
    n: nat,
) -> bool
    decreases n,
{
    n == 0 || {
        &&& in_bounds(a, at_a, 12) == in_bounds(b, at_b, 12)
        &&& in_bounds(a, at_a, 12) ==> {
            &&& entry_at(a, at_a, order_a) == entry_at(b, at_b, order_b)
            &&& payload_of(a, order_a, entry_at(a, at_a, order_a)) == payload_of(
                b,
                order_b,
                entry_at(b, at_b, order_b),
            )
            &&& same_entries(a, order_a, at_a + 12, b, order_b, at_b + 12, (n - 1) as nat)
        }
    }
}

/// Entries that decode to the same values give the same metadata, whatever
/// the byte order of either buffer.
pub proof fn lemma_same_entries_same_scan(
    a: Seq<u8>,
    order_a: Endianness,
    at_a: int,
    b: Seq<u8>,
    order_b: Endianness,
    at_b: int,
    n: nat,
    ifd: IfdModel,
)
    requires
        same_entries(a, order_a, at_a, b, order_b, at_b, n),
    ensures
        scan_entries(a, order_a, at_a, n, ifd) == scan_entries(b, order_b, at_b, n, ifd),
    decreases n,
{
    if n > 0 && in_bounds(a, at_a, 12) {
        let entry = entry_at(a, at_a, order_a);
        match apply_entry(a, order_a, ifd, entry) {
            Ok(next) => {
                lemma_same_entries_same_scan(
                    a,
                    order_a,
                    at_a + 12,
                    b,
                    order_b,
                    at_b + 12,
                    (n - 1) as nat,
                    next,
                );
            },
            Err(_) => {},
        }
    }
}

/// Two files that hold the same values, one in each byte order or both in
/// one, give the same metadata or fail with the same error: the magic
/// numbers agree, each has its directory inside the buffer, the
/// directories have the same entries with the same payloads, and the
/// offsets of a next directory agree.
pub proof fn lemma_byte_order_does_not_matter(
    a: Seq<u8>,
    order_a: Endianness,
    b: Seq<u8>,
    order_b: Endianness,
)
    requires
        in_bounds(a, 2, 2) && in_bounds(b, 2, 2),
        u16_at(a, 2, order_a) == u16_at(b, 2, order_b),
        in_bounds(a, 4, 4) && in_bounds(b, 4, 4),
        in_bounds(a, u32_at(a, 4, order_a) as int, 2),
        in_bounds(b, u32_at(b, 4, order_b) as int, 2),
        u16_at(a, u32_at(a, 4, order_a) as int, order_a) == u16_at(
            b,
            u32_at(b, 4, order_b) as int,
            order_b,
        ),
        same_entries(
            a,
            order_a,
            u32_at(a, 4, order_a) + 2,
            b,
            order_b,
            u32_at(b, 4, order_b) + 2,
            u16_at(a, u32_at(a, 4, order_a) as int, order_a) as nat,
        ),
        ({
            let n = u16_at(a, u32_at(a, 4, order_a) as int, order_a);
            let end_a = u32_at(a, 4, order_a) + 2 + 12 * n;
            let end_b = u32_at(b, 4, order_b) + 2 + 12 * n;
            in_bounds(a, end_a, 4) == in_bounds(b, end_b, 4) && (in_bounds(a, end_a, 4) ==> u32_at(
                a,
                end_a,
                order_a,
            ) == u32_at(b, end_b, order_b))
        }),
    ensures
        directory_of(a, order_a) == directory_of(b, order_b),
{
    lemma_same_entries_same_scan(
        a,
        order_a,
        u32_at(a, 4, order_a) + 2,
        b,
        order_b,
        u32_at(b, 4, order_b) + 2,
        u16_at(a, u32_at(a, 4, order_a) as int, order_a) as nat,
        IfdModel::empty(),
    );
}

/// A directory that is followed by another one is refused as such, once
/// its own entries have decoded.
pub proof fn lemma_chained_directory_refused(bytes: Seq<u8>, order: Endianness)
    requires
        in_bounds(bytes, 2, 2),
        u16_at(bytes, 2, order) == 42,
        in_bounds(bytes, 4, 4),
        in_bounds(bytes, u32_at(bytes, 4, order) as int, 2),
        ({
            let first = u32_at(bytes, 4, order) as int;
            let n = u16_at(bytes, first, order) as nat;
            &&& scan_entries(bytes, order, first + 2, n, IfdModel::empty()) is Ok
            &&& in_bounds(bytes, first + 2 + 12 * n, 4)
            &&& u32_at(bytes, first + 2 + 12 * n, order) != 0
        }),
    ensures
        directory_of(bytes, order) == Err::<IfdModel, TiffError>(
            TiffError::ChainedDirectoryUnsupported,
        ),
{
}

/// A single directory whose entries leave the sample format at 4 is
/// refused for its sample format.
pub proof fn lemma_undefined_sample_format_refused(bytes: Seq<u8>, order: Endianness)
    requires
        in_bounds(bytes, 2, 2),
        u16_at(bytes, 2, order) == 42,
        in_bounds(bytes, 4, 4),
        in_bounds(bytes, u32_at(bytes, 4, order) as int, 2),
        ({
            let first = u32_at(bytes, 4, order) as int;
            let n = u16_at(bytes, first, order) as nat;
            &&& scan_entries(bytes, order, first + 2, n, IfdModel::empty()) matches Ok(ifd)
                && ifd.sample_format == 4
            &&& in_bounds(bytes, first + 2 + 12 * n, 4)
            &&& u32_at(bytes, first + 2 + 12 * n, order) == 0
        }),
    ensures
        directory_of(bytes, order) == Err::<IfdModel, TiffError>(
            TiffError::UndefinedSampleFormat,
        ),
{
}

} // verus!
