use vstd::prelude::*;
use crate::binary64::{encode_whole, truncate_to_whole, widen_single};
use crate::bytes::{
    Endianness, be_value, byte_order_of, i16_at, in_bounds, le_value, lemma_scalar_bound, u16_at,
    u32_at, u64_at,
};
use crate::dataset::TiffDataset;
use crate::directory::{IfdEntry, IfdModel, Payload, TagClass, TiffDataType, TiffIfd, tag_class};
use crate::error::TiffError;
use crate::georef::georeference;
use crate::layout::{
    apply_entry, directory_of, double_element, double_vector, entry_at, integer_element,
    integer_vector, lossy_text, payload_of, scan_entries, text_span,
};

verus! {

/// A cursor over a read-only byte buffer. The byte order is fixed when the
/// cursor is made; the only state that changes is the position.
pub struct TiffReader {
    offset: usize,
    data: Vec<u8>,
    endianness: Endianness,
}

impl TiffReader {
    /// The buffer.
    pub closed spec fn bytes(&self) -> Seq<u8> {
        self.data@
    }

    /// The position of the next read.
    pub closed spec fn position(&self) -> int {
        self.offset as int
    }

    /// The byte order of every read.
    pub closed spec fn order(&self) -> Endianness {
        self.endianness
    }

    /// Whether `other` is this cursor moved to some other position.
    pub open spec fn same_buffer(&self, other: &TiffReader) -> bool {
        self.bytes() == other.bytes() && self.order() == other.order()
    }

    /// Takes a buffer and fixes the byte order from its first two bytes.
    pub fn new(map: Vec<u8>) -> (made: Result<TiffReader, TiffError>)
        ensures
            match byte_order_of(map@) {
                Some(order) => made is Ok && made->Ok_0.bytes() == map@ && made->Ok_0.order()
                    == order && made->Ok_0.position() == 0,
                None => made == Err::<TiffReader, TiffError>(TiffError::BadByteOrderMarker),
            },
    {
        if map.len() < 2 {
            return Err(TiffError::BadByteOrderMarker);
        }
        let endianness = if map[0] == 0x49 && map[1] == 0x49 {
            Endianness::Little
        } else if map[0] == 0x4D && map[1] == 0x4D {
            Endianness::Big
        } else {
            return Err(TiffError::BadByteOrderMarker);
        };
        Ok(TiffReader { offset: 0, data: map, endianness })
    }

    /// The position of the next read.
    pub fn offset(&self) -> (at: usize)
        ensures
            at == self.position(),
    {
        self.offset
    }

    /// The byte order of every read.
    pub fn endianness(&self) -> (order: Endianness)
        ensures
            order == self.order(),
    {
        self.endianness
    }

    /// The length of the buffer.
    pub fn len(&self) -> (n: usize)
        ensures
            n == self.bytes().len(),
    {
        self.data.len()
    }

    /// Moves the cursor. No bounds are checked here: the next read does that.
    pub fn set_offset(&mut self, offset: u32)
        ensures
            old(self).same_buffer(final(self)),
            final(self).position() == offset,
    {
        self.offset = offset as usize;
    }

    /// Whether `width` bytes are left at the cursor.
    fn has(&self, width: usize) -> (yes: bool)
        ensures
            yes == in_bounds(self.bytes(), self.position(), width as int),
            self.bytes().len() <= usize::MAX,
    {
        self.offset <= self.data.len() && self.data.len() - self.offset >= width
    }

    /// The byte `k` places after the cursor, widened.
    fn byte(&self, k: usize) -> (b: u64)
        requires
            self.position() + k < self.bytes().len(),
        ensures
            b == self.bytes()[self.position() + k],
    {
        let _len: usize = self.data.len();
        self.data[self.offset + k] as u64
    }

    /// Reads two bytes as an unsigned number and steps over them.
    pub fn read_u16(&mut self) -> (read: Result<u16, TiffError>)
        ensures
            old(self).same_buffer(final(self)),
            in_bounds(old(self).bytes(), old(self).position(), 2) ==> read == Ok::<u16, TiffError>(
                u16_at(old(self).bytes(), old(self).position(), old(self).order()),
            ) && final(self).position() == old(self).position() + 2,
            !in_bounds(old(self).bytes(), old(self).position(), 2) ==> read == Err::<
                u16,
                TiffError,
            >(TiffError::IntegrityError) && final(self).position() == old(self).position(),
    {
        if !self.has(2) {
            return Err(TiffError::IntegrityError);
        }
        proof {
            reveal_with_fuel(le_value, 3);
            reveal_with_fuel(be_value, 3);
        }
        let b0 = self.byte(0);
        let b1 = self.byte(1);
        let value = match self.endianness {
            Endianness::Little => b0 + 256 * b1,
            Endianness::Big => 256 * b0 + b1,
        };
        self.offset = self.offset + 2;
        Ok(value as u16)
    }

    /// Reads two bytes as a two's-complement number and steps over them.
    pub fn read_i16(&mut self) -> (read: Result<i16, TiffError>)
        ensures
            old(self).same_buffer(final(self)),
            in_bounds(old(self).bytes(), old(self).position(), 2) ==> read == Ok::<i16, TiffError>(
                i16_at(old(self).bytes(), old(self).position(), old(self).order()),
            ) && final(self).position() == old(self).position() + 2,
            !in_bounds(old(self).bytes(), old(self).position(), 2) ==> read == Err::<
                i16,
                TiffError,
            >(TiffError::IntegrityError) && final(self).position() == old(self).position(),
    {
        proof {
            lemma_scalar_bound(self.bytes(), self.position(), self.order());
        }
        match self.read_u16() {
            Ok(raw) => {
                if raw >= 32768 {
                    Ok((raw - 32768) as i16 - 32767 - 1)
                } else {
                    Ok(raw as i16)
                }
            },
            Err(e) => Err(e),
        }
    }

    /// Reads four bytes as an unsigned number and steps over them.
    pub fn read_u32(&mut self) -> (read: Result<u32, TiffError>)
        ensures
            old(self).same_buffer(final(self)),
            in_bounds(old(self).bytes(), old(self).position(), 4) ==> read == Ok::<u32, TiffError>(
                u32_at(old(self).bytes(), old(self).position(), old(self).order()),
            ) && final(self).position() == old(self).position() + 4,
            !in_bounds(old(self).bytes(), old(self).position(), 4) ==> read == Err::<
                u32,
                TiffError,
            >(TiffError::IntegrityError) && final(self).position() == old(self).position(),
    {
        if !self.has(4) {
            return Err(TiffError::IntegrityError);
        }
        proof {
            reveal_with_fuel(le_value, 5);
            reveal_with_fuel(be_value, 5);
        }
        let b0 = self.byte(0);
        let b1 = self.byte(1);
        let b2 = self.byte(2);
        let b3 = self.byte(3);
        let value = match self.endianness {
            Endianness::Little => b0 + 256 * (b1 + 256 * (b2 + 256 * b3)),
            Endianness::Big => 256 * (256 * (256 * b0 + b1) + b2) + b3,
        };
        self.offset = self.offset + 4;
        Ok(value as u32)
    }

    /// Reads eight bytes as an unsigned number and steps over them.
    pub fn read_u64(&mut self) -> (read: Result<u64, TiffError>)
        ensures
            old(self).same_buffer(final(self)),
            in_bounds(old(self).bytes(), old(self).position(), 8) ==> read == Ok::<u64, TiffError>(
                u64_at(old(self).bytes(), old(self).position(), old(self).order()),
            ) && final(self).position() == old(self).position() + 8,
            !in_bounds(old(self).bytes(), old(self).position(), 8) ==> read == Err::<
                u64,
                TiffError,
            >(TiffError::IntegrityError) && final(self).position() == old(self).position(),
    {
        if !self.has(8) {
            return Err(TiffError::IntegrityError);
        }
        proof {
            reveal_with_fuel(le_value, 9);
            reveal_with_fuel(be_value, 9);
        }
        let b0 = self.byte(0);
        let b1 = self.byte(1);
        let b2 = self.byte(2);
        let b3 = self.byte(3);
        let b4 = self.byte(4);
        let b5 = self.byte(5);
        let b6 = self.byte(6);
        let b7 = self.byte(7);
        let value = match self.endianness {
            Endianness::Little => b0 + 256 * (b1 + 256 * (b2 + 256 * (b3 + 256 * (b4 + 256 * (b5
                + 256 * (b6 + 256 * b7)))))),
            Endianness::Big => 256 * (256 * (256 * (256 * (256 * (256 * (256 * b0 + b1) + b2) + b3)
                + b4) + b5) + b6) + b7,
        };
        self.offset = self.offset + 8;
        Ok(value)
    }
}


/// `String::from_utf8_lossy` of std, its result made an owned string: the
/// text of the bytes, with the replacement character in place of every
/// run that is not valid UTF-8. The contract only names that text.
#[verifier::external_body]
fn decode_text(bytes: &[u8]) -> (text: String)
    ensures
        text@ == lossy_text(bytes@),
{
    String::from_utf8_lossy(bytes).into_owned()
}

/// `num_traits::NumCast::from`, from 16 to 32 bits without a sign: the
/// target holds every value of the source, so the cast always succeeds
/// and keeps the value.
#[verifier::external_body]
fn widen_short(v: u16) -> (wide: Option<u32>)
    ensures
        wide == Some(v as u32),
{
    num_traits::NumCast::from(v)
}

impl TiffReader {
    /// Whether `count` values of `width` bytes each lie inside the buffer
    /// from `start` on.
    pub(crate) fn holds(&self, start: u32, count: u32, width: u64) -> (yes: bool)
        requires
            width <= 8,
        ensures
            yes == in_bounds(self.bytes(), start as int, count * width),
            self.bytes().len() <= usize::MAX,
    {
        assert(count * width <= 0xFFFF_FFFF * 8) by (nonlinear_arith)
            requires
                count <= 0xFFFF_FFFF,
                width <= 8,
        ;
        assert(0 <= count * width) by (nonlinear_arith);
        let stop: u64 = start as u64 + count as u64 * width;
        stop <= self.data.len() as u64
    }

    /// Reads the vector of whole numbers that an entry points to, and
    /// leaves the cursor where it was.
    pub fn read_vector(&mut self, entry: &IfdEntry) -> (read: Result<Vec<u32>, TiffError>)
        ensures
            old(self).same_buffer(final(self)),
            final(self).position() == old(self).position(),
            match integer_vector(old(self).bytes(), old(self).order(), *entry) {
                Ok(items) => read is Ok && read->Ok_0@ == items,
                Err(e) => read == Err::<Vec<u32>, TiffError>(e),
            },
    {
        let mut vec: Vec<u32> = Vec::new();
        if entry.count == 0 {
            return Ok(vec);
        }
        let kind = match TiffDataType::try_from(entry.field_type) {
            Ok(kind) => kind,
            Err(_) => { return Err(TiffError::InvalidDataType); },
        };
        let width = kind.width();
        if !self.holds(entry.value_offset, entry.count, width) {
            return Err(TiffError::IntegrityError);
        }
        let current = self.offset;
        self.set_offset(entry.value_offset);
        let mut k: u32 = 0;
        while k < entry.count
            invariant
                old(self).same_buffer(self),
                width == kind.spec_width(),
                in_bounds(self.bytes(), entry.value_offset as int, entry.count * width),
                k <= entry.count,
                self.position() == entry.value_offset + k * width,
                vec@.len() == k,
                current == old(self).position(),
                entry.count > 0,
                TiffDataType::of_code(entry.field_type) == Some(kind),
                forall|i: int|
                    0 <= i < k ==> Some(vec@[i]) == #[trigger] integer_element(
                        self.bytes(),
                        self.order(),
                        kind,
                        entry.value_offset + i * width,
                    ),
            decreases entry.count - k,
        {
            assert((k + 1) * width <= entry.count * width && (k + 1) * width == k * width + width)
                by (nonlinear_arith)
                requires
                    k < entry.count,
                    width >= 0,
            ;
            let read = match kind {
                TiffDataType::Short => match self.read_u16() {
                    Ok(v) => widen_short(v),
                    Err(_) => None,
                },
                TiffDataType::Long => match self.read_u32() {
                    Ok(v) => Some(v),
                    Err(_) => None,
                },
                TiffDataType::Float => match self.read_u32() {
                    Ok(v) => truncate_to_whole(widen_single(v)),
                    Err(_) => None,
                },
                TiffDataType::Double => match self.read_u64() {
                    Ok(v) => truncate_to_whole(v),
                    Err(_) => None,
                },
            };
            match read {
                Some(num) => vec.push(num),
                None => {
                    self.offset = current;
                    assert(integer_element(
                        self.bytes(),
                        self.order(),
                        kind,
                        entry.value_offset + k * width,
                    ) is None);
                    return Err(TiffError::InvalidDataType);
                },
            }
            k = k + 1;
        }
        self.offset = current;
        assert(vec@ =~= integer_vector(old(self).bytes(), old(self).order(), *entry)->Ok_0);
        Ok(vec)
    }

    /// Reads the vector of doubles that an entry points to, each as its
    /// bit pattern, and leaves the cursor where it was.
    pub fn read_doubles(&mut self, entry: &IfdEntry) -> (read: Result<Vec<u64>, TiffError>)
        ensures
            old(self).same_buffer(final(self)),
            final(self).position() == old(self).position(),
            match double_vector(old(self).bytes(), old(self).order(), *entry) {
                Ok(items) => read is Ok && read->Ok_0@ == items,
                Err(e) => read == Err::<Vec<u64>, TiffError>(e),
            },
    {
        let mut vec: Vec<u64> = Vec::new();
        if entry.count == 0 {
            return Ok(vec);
        }
        let kind = match TiffDataType::try_from(entry.field_type) {
            Ok(kind) => kind,
            Err(_) => { return Err(TiffError::InvalidDataType); },
        };
        let width = kind.width();
        if !self.holds(entry.value_offset, entry.count, width) {
            return Err(TiffError::IntegrityError);
        }
        let current = self.offset;
        self.set_offset(entry.value_offset);
        let mut k: u32 = 0;
        while k < entry.count
            invariant
                old(self).same_buffer(self),
                width == kind.spec_width(),
                in_bounds(self.bytes(), entry.value_offset as int, entry.count * width),
                k <= entry.count,
                self.position() == entry.value_offset + k * width,
                vec@.len() == k,
                forall|i: int|
                    0 <= i < k ==> vec@[i] == double_element(
                        self.bytes(),
                        self.order(),
                        kind,
                        entry.value_offset + i * width,
                    ),
            decreases entry.count - k,
        {
            assert((k + 1) * width <= entry.count * width && (k + 1) * width == k * width + width)
                by (nonlinear_arith)
                requires
                    k < entry.count,
                    width >= 0,
            ;
            let read = match kind {
                TiffDataType::Short => match self.read_u16() {
                    Ok(v) => Some(encode_whole(v as u32)),
                    Err(_) => None,
                },
                TiffDataType::Long => match self.read_u32() {
                    Ok(v) => Some(encode_whole(v)),
                    Err(_) => None,
                },
                TiffDataType::Float => match self.read_u32() {
                    Ok(v) => Some(widen_single(v)),
                    Err(_) => None,
                },
                TiffDataType::Double => match self.read_u64() {
                    Ok(v) => Some(v),
                    Err(_) => None,
                },
            };
            match read {
                Some(num) => vec.push(num),
                None => {
                    self.offset = current;
                    return Err(TiffError::IntegrityError);
                },
            }
            k = k + 1;
        }
        self.offset = current;
        assert(vec@ =~= double_vector(old(self).bytes(), old(self).order(), *entry)->Ok_0);
        Ok(vec)
    }

    /// Reads the text that an entry points to. The cursor does not move.
    pub fn read_text(&self, entry: &IfdEntry) -> (read: Result<String, TiffError>)
        ensures
            match text_span(self.bytes(), *entry) {
                Ok(text) => read is Ok && read->Ok_0@ == text,
                Err(e) => read == Err::<String, TiffError>(e),
            },
    {
        if !self.holds(entry.value_offset, entry.count, 1) {
            return Err(TiffError::IntegrityError);
        }
        let start = entry.value_offset as usize;
        let stop = start + entry.count as usize;
        let span = vstd::slice::slice_subrange(self.data.as_slice(), start, stop);
        Ok(decode_text(span))
    }

    /// Reads what an entry carries besides its four fields, and leaves the
    /// cursor where it was.
    pub fn read_payload(&mut self, entry: &IfdEntry) -> (read: Result<Payload, TiffError>)
        ensures
            old(self).same_buffer(final(self)),
            final(self).position() == old(self).position(),
            match payload_of(old(self).bytes(), old(self).order(), *entry) {
                Ok(payload) => read is Ok && read->Ok_0@ == payload,
                Err(e) => read is Err && read->Err_0 == e,
            },
    {
        match tag_class(entry.tag) {
            TagClass::Integers => match self.read_vector(entry) {
                Ok(items) => Ok(Payload::Integers(items)),
                Err(e) => Err(e),
            },
            TagClass::Doubles => match self.read_doubles(entry) {
                Ok(items) => Ok(Payload::Doubles(items)),
                Err(e) => Err(e),
            },
            TagClass::Text => match self.read_text(entry) {
                Ok(text) => Ok(Payload::Text(text)),
                Err(e) => Err(e),
            },
            _ => Ok(Payload::Inline),
        }
    }

    /// Reads the twelve bytes of one directory entry and steps over them.
    /// Where fewer are left, the cursor does not move.
    pub fn read_ifd_entry(&mut self) -> (read: Result<IfdEntry, TiffError>)
        ensures
            old(self).same_buffer(final(self)),
            in_bounds(old(self).bytes(), old(self).position(), 12) ==> read == Ok::<
                IfdEntry,
                TiffError,
            >(entry_at(old(self).bytes(), old(self).position(), old(self).order()))
                && final(self).position() == old(self).position() + 12,
            !in_bounds(old(self).bytes(), old(self).position(), 12) ==> read == Err::<
                IfdEntry,
                TiffError,
            >(TiffError::IntegrityError) && final(self).position() == old(self).position(),
    {
        if !self.has(12) {
            return Err(TiffError::IntegrityError);
        }
        let tag = self.read_u16();
        let field_type = self.read_u16();
        let count = self.read_u32();
        let value_offset = self.read_u32();
        match (tag, field_type, count, value_offset) {
            (Ok(tag), Ok(field_type), Ok(count), Ok(value_offset)) => Ok(
                IfdEntry { tag, field_type, count, value_offset },
            ),
            _ => Err(TiffError::IntegrityError),
        }
    }

    /// Reads one directory entry and takes it into the metadata. On an
    /// error the metadata stays as it was.
    pub fn set_ifd_entry(&mut self, ifd: &mut TiffIfd) -> (done: Result<(), TiffError>)
        ensures
            old(self).same_buffer(final(self)),
            !in_bounds(old(self).bytes(), old(self).position(), 12) ==> done == Err::<
                (),
                TiffError,
            >(TiffError::IntegrityError) && final(self).position() == old(self).position()
                && final(ifd)@ == old(ifd)@,
            in_bounds(old(self).bytes(), old(self).position(), 12) ==> final(self).position()
                == old(self).position() + 12 && match apply_entry(
                old(self).bytes(),
                old(self).order(),
                old(ifd)@,
                entry_at(old(self).bytes(), old(self).position(), old(self).order()),
            ) {
                Ok(next) => done is Ok && final(ifd)@ == next,
                Err(e) => done == Err::<(), TiffError>(e) && final(ifd)@ == old(ifd)@,
            },
    {
        let entry = match self.read_ifd_entry() {
            Ok(entry) => entry,
            Err(e) => { return Err(e); },
        };
        let payload = match self.read_payload(&entry) {
            Ok(payload) => payload,
            Err(e) => { return Err(e); },
        };
        ifd.apply(&entry, payload)
    }
}


impl TiffReader {
    /// Reads the directory of the file: the magic number, the entries of
    /// the one directory, the offset of a next directory and the check of
    /// the sample format.
    pub fn read_directory(&mut self) -> (read: Result<TiffIfd, TiffError>)
        ensures
            old(self).same_buffer(final(self)),
            match directory_of(old(self).bytes(), old(self).order()) {
                Ok(ifd) => read is Ok && read->Ok_0@ == ifd,
                Err(e) => read is Err && read->Err_0 == e,
            },
    {
        self.offset = 2;
        let magic = match self.read_u16() {
            Ok(magic) => magic,
            Err(e) => { return Err(e); },
        };
        if magic == 43 {
            return Err(TiffError::UnsupportedBigVariant);
        } else if magic != 42 {
            return Err(TiffError::BadMagicNumber);
        }
        let first = match self.read_u32() {
            Ok(first) => first,
            Err(e) => { return Err(e); },
        };
        self.set_offset(first);
        let n_entry = match self.read_u16() {
            Ok(n_entry) => n_entry,
            Err(e) => { return Err(e); },
        };
        let mut ifd = TiffIfd::default();
        let ghost bytes = self.bytes();
        let ghost order = self.order();
        let mut done: u16 = 0;
        while done < n_entry
            invariant
                old(self).same_buffer(self),
                bytes == self.bytes(),
                order == self.order(),
                done <= n_entry,
                self.position() == first + 2 + 12 * done,
                scan_entries(bytes, order, first + 2, n_entry as nat, IfdModel::empty())
                    == scan_entries(
                    bytes,
                    order,
                    first + 2 + 12 * done,
                    (n_entry - done) as nat,
                    ifd@,
                ),
                directory_of(bytes, order) == match scan_entries(
                    bytes,
                    order,
                    first + 2,
                    n_entry as nat,
                    IfdModel::empty(),
                ) {
                    Ok(ifd) => if !in_bounds(bytes, first + 2 + 12 * n_entry, 4) {
                        Err(TiffError::IntegrityError)
                    } else if u32_at(bytes, first + 2 + 12 * n_entry, order) != 0 {
                        Err(TiffError::ChainedDirectoryUnsupported)
                    } else if ifd.sample_format == 4 {
                        Err(TiffError::UndefinedSampleFormat)
                    } else {
                        Ok(ifd)
                    },
                    Err(e) => Err(e),
                },
            decreases n_entry - done,
        {
            match self.set_ifd_entry(&mut ifd) {
                Ok(()) => {},
                Err(e) => { return Err(e); },
            }
            done = done + 1;
        }
        let next = match self.read_u32() {
            Ok(next) => next,
            Err(e) => { return Err(e); },
        };
        if next != 0 {
            return Err(TiffError::ChainedDirectoryUnsupported);
        }
        if ifd.sample_format == 4 {
            return Err(TiffError::UndefinedSampleFormat);
        }
        Ok(ifd)
    }

    /// Reads the file into a dataset: the directory first, then the grid
    /// that its metadata gives. No pixel sample is read.
    pub fn read_tiff(&mut self) -> (read: Result<TiffDataset, TiffError>)
        ensures
            old(self).same_buffer(final(self)),
            match directory_of(old(self).bytes(), old(self).order()) {
                Ok(ifd) => match georeference(ifd) {
                    Ok(grid) => read is Ok && read->Ok_0.wf() && read->Ok_0.metadata() == ifd
                        && read->Ok_0.coordinates() == grid && read->Ok_0.pixels() is None,
                    Err(e) => read is Err && read->Err_0 == e,
                },
                Err(e) => read is Err && read->Err_0 == e,
            },
    {
        match self.read_directory() {
            Ok(ifd) => TiffDataset::from_ifd(ifd),
            Err(e) => Err(e),
        }
    }
}

} // verus!
