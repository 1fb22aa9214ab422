use vstd::prelude::*;
use crate::bytes::{Endianness, i16_at, in_bounds, u16_at, u32_at};
use crate::directory::{IfdModel, TiffIfd};
use crate::error::TiffError;
use crate::georef::{GeoGrid, georeference};
use crate::reader::TiffReader;

verus! {

/// One pixel sample, tagged with its numeric kind.
#[derive(Debug, Clone, Copy, PartialEq, Eq, Structural)]
pub enum TiffSample {
    U16(u16),
    I16(i16),
    /// A single-precision number, as its bit pattern.
    F32(u32),
}

/// The numeric kinds of pixel samples.
#[derive(Debug, Clone, Copy, PartialEq, Eq, Structural)]
pub enum SampleKind {
    Unsigned,
    Signed,
    Float,
}

impl SampleKind {
    /// The kind that a sample format stands for: 1 is unsigned, 2 is
    /// signed, 3 is floating point, and nothing else is defined.
    pub open spec fn of_format(sample_format: u16) -> Option<SampleKind> {
        if sample_format == 1 {
            Some(SampleKind::Unsigned)
        } else if sample_format == 2 {
            Some(SampleKind::Signed)
        } else if sample_format == 3 {
            Some(SampleKind::Float)
        } else {
            None
        }
    }

    /// The number of bytes that one sample of the kind is decoded from.
    pub open spec fn spec_width(self) -> int {
        match self {
            SampleKind::Unsigned => 2,
            SampleKind::Signed => 2,
            SampleKind::Float => 4,
        }
    }

    /// The number of bytes that one sample of the kind is decoded from.
    pub fn width(&self) -> (bytes: u64)
        ensures
            bytes == self.spec_width(),
    {
        match self {
            SampleKind::Unsigned => 2,
            SampleKind::Signed => 2,
            SampleKind::Float => 4,
        }
    }
}

/// The sample of the given kind that the bytes at `at` encode.
pub open spec fn sample_at(bytes: Seq<u8>, order: Endianness, kind: SampleKind, at: int) -> TiffSample {
    match kind {
        SampleKind::Unsigned => TiffSample::U16(u16_at(bytes, at, order)),
        SampleKind::Signed => TiffSample::I16(i16_at(bytes, at, order)),
        SampleKind::Float => TiffSample::F32(u32_at(bytes, at, order)),
    }
}

/// The `count` samples that lie one after the other from `at` on.
pub open spec fn strip_samples(
    bytes: Seq<u8>,
    order: Endianness,
    kind: SampleKind,
    at: int,
    count: nat,
) -> Seq<TiffSample> {
    Seq::new(count, |k: int| sample_at(bytes, order, kind, at + k * kind.spec_width()))
}

/// The samples of the first `n` strips, one strip after the other. A strip
/// of `strip_byte_counts[i] / bytesize` samples starts at
/// `strip_offsets[i]`; a strip that holds samples must lie inside the
/// buffer.
pub open spec fn load_strips(
    bytes: Seq<u8>,
    order: Endianness,
    kind: SampleKind,
    offsets: Seq<u32>,
    byte_counts: Seq<u32>,
    bytesize: int,
    n: nat,
) -> Result<Seq<TiffSample>, TiffError>
    decreases n,
{
    if n == 0 {
        Ok(Seq::empty())
    } else {
        match load_strips(bytes, order, kind, offsets, byte_counts, bytesize, (n - 1) as nat) {
            Ok(before) => {
                let count = byte_counts[n - 1] as int / bytesize;
                if count > 0 && !in_bounds(bytes, offsets[n - 1] as int, count * kind.spec_width()) {
                    Err(TiffError::IntegrityError)
                } else {
                    Ok(before + strip_samples(bytes, order, kind, offsets[n - 1] as int, count as nat))
                }
            },
            Err(e) => Err(e),
        }
    }
}

/// The pixel samples of a raster in row order, as the strips of the buffer
/// give them, or the error that loading ends with. The sample format must
/// be a defined one; a sample must take at least one byte; there must be
/// as many strip offsets as strip byte counts; every strip must lie inside
/// the buffer; and the strips together must hold exactly one sample for
/// each pixel.
pub open spec fn pixels_of(ifd: IfdModel, bytes: Seq<u8>, order: Endianness) -> Result<
    Seq<TiffSample>,
    TiffError,
> {
    match SampleKind::of_format(ifd.sample_format) {
        None => Err(TiffError::UndefinedSampleFormat),
        Some(kind) => if ifd.bits_per_sample < 8 || ifd.strip_offsets.len()
            != ifd.strip_byte_counts.len() {
            Err(TiffError::IntegrityError)
        } else {
            match load_strips(
                bytes,
                order,
                kind,
                ifd.strip_offsets,
                ifd.strip_byte_counts,
                ifd.bits_per_sample as int / 8,
                ifd.strip_offsets.len(),
            ) {
                Ok(samples) => if samples.len() != ifd.image_width * ifd.image_length {
                    Err(TiffError::IntegrityError)
                } else {
                    Ok(samples)
                },
                Err(e) => Err(e),
            }
        },
    }
}

/// Once a strip has failed, the strips after it change nothing.
pub proof fn lemma_load_error_stays(
    bytes: Seq<u8>,
    order: Endianness,
    kind: SampleKind,
    offsets: Seq<u32>,
    byte_counts: Seq<u32>,
    bytesize: int,
    failed: nat,
    n: nat,
)
    requires
        failed <= n,
        load_strips(bytes, order, kind, offsets, byte_counts, bytesize, failed) is Err,
    ensures
        load_strips(bytes, order, kind, offsets, byte_counts, bytesize, n) == load_strips(
            bytes,
            order,
            kind,
            offsets,
            byte_counts,
            bytesize,
            failed,
        ),
    decreases n,
{
    if failed < n {
        lemma_load_error_stays(bytes, order, kind, offsets, byte_counts, bytesize, failed, (n - 1) as nat);
    }
}

/// Strips that load hold as many samples as their byte counts give, and
/// the samples of the last one are the last samples.
pub proof fn lemma_last_strip(
    bytes: Seq<u8>,
    order: Endianness,
    kind: SampleKind,
    offsets: Seq<u32>,
    byte_counts: Seq<u32>,
    bytesize: int,
    n: nat,
    k: int,
)
    requires
        n > 0,
        load_strips(bytes, order, kind, offsets, byte_counts, bytesize, n) is Ok,
        0 <= k < byte_counts[n - 1] as int / bytesize,
    ensures
        ({
            let samples = load_strips(bytes, order, kind, offsets, byte_counts, bytesize, n)->Ok_0;
            let count = byte_counts[n - 1] as int / bytesize;
            &&& samples.len() >= count
            &&& samples[samples.len() - count + k] == sample_at(
                bytes,
                order,
                kind,
                offsets[n - 1] + k * kind.spec_width(),
            )
        }),
{
}

/// Strips that load start with the samples of the first strip.
pub proof fn lemma_first_strip(
    bytes: Seq<u8>,
    order: Endianness,
    kind: SampleKind,
    offsets: Seq<u32>,
    byte_counts: Seq<u32>,
    bytesize: int,
    n: nat,
    k: int,
)
    requires
        n > 0,
        load_strips(bytes, order, kind, offsets, byte_counts, bytesize, n) is Ok,
        0 <= k < byte_counts[0] as int / bytesize,
    ensures
        ({
            let samples = load_strips(bytes, order, kind, offsets, byte_counts, bytesize, n)->Ok_0;
            &&& samples.len() > k
            &&& samples[k] == sample_at(bytes, order, kind, offsets[0] + k * kind.spec_width())
        }),
    decreases n,
{
    if n > 1 {
        lemma_first_strip(bytes, order, kind, offsets, byte_counts, bytesize, (n - 1) as nat, k);
    } else {
        reveal_with_fuel(load_strips, 2);
    }
}

/// The pixel samples of a raster, all of one numeric kind.
#[derive(Debug)]
pub enum TiffDataArray {
    UnsignedInt(Vec<u16>),
    SignedInt(Vec<i16>),
    /// Single-precision numbers, each as its bit pattern.
    Float(Vec<u32>),
}

impl View for TiffDataArray {
    type V = Seq<TiffSample>;

    open spec fn view(&self) -> Seq<TiffSample> {
        match self {
            TiffDataArray::UnsignedInt(v) => v@.map_values(|x: u16| TiffSample::U16(x)),
            TiffDataArray::SignedInt(v) => v@.map_values(|x: i16| TiffSample::I16(x)),
            TiffDataArray::Float(v) => v@.map_values(|x: u32| TiffSample::F32(x)),
        }
    }
}

impl TiffDataArray {
    /// The kind of every sample of the storage.
    pub open spec fn kind(&self) -> SampleKind {
        match self {
            TiffDataArray::UnsignedInt(_) => SampleKind::Unsigned,
            TiffDataArray::SignedInt(_) => SampleKind::Signed,
            TiffDataArray::Float(_) => SampleKind::Float,
        }
    }

    /// An empty storage for the given sample format, if it is a defined
    /// one.
    pub fn for_format(sample_format: u16) -> (made: Option<TiffDataArray>)
        ensures
            match SampleKind::of_format(sample_format) {
                Some(kind) => made is Some && made->Some_0.kind() == kind && made->Some_0@
                    == Seq::<TiffSample>::empty(),
                None => made is None,
            },
    {
        let made = match sample_format {
            1 => TiffDataArray::UnsignedInt(Vec::new()),
            2 => TiffDataArray::SignedInt(Vec::new()),
            3 => TiffDataArray::Float(Vec::new()),
            _ => { return None; },
        };
        assert(made@ =~= Seq::<TiffSample>::empty());
        Some(made)
    }

    /// The kind of every sample of the storage.
    pub fn sample_kind(&self) -> (kind: SampleKind)
        ensures
            kind == self.kind(),
    {
        match self {
            TiffDataArray::UnsignedInt(_) => SampleKind::Unsigned,
            TiffDataArray::SignedInt(_) => SampleKind::Signed,
            TiffDataArray::Float(_) => SampleKind::Float,
        }
    }

    /// Reads one sample of the storage's kind at the cursor and appends
    /// it. Where too few bytes are left, nothing changes.
    pub fn push_reader(&mut self, reader: &mut TiffReader) -> (done: Result<(), TiffError>)
        ensures
            old(reader).same_buffer(final(reader)),
            final(self).kind() == old(self).kind(),
            in_bounds(old(reader).bytes(), old(reader).position(), old(self).kind().spec_width())
                ==> done is Ok
                && final(reader).position() == old(reader).position() + old(self).kind().spec_width()
                && final(self)@ == old(self)@.push(
                sample_at(
                    old(reader).bytes(),
                    old(reader).order(),
                    old(self).kind(),
                    old(reader).position(),
                ),
            ),
            !in_bounds(old(reader).bytes(), old(reader).position(), old(self).kind().spec_width())
                ==> done == Err::<(), TiffError>(TiffError::IntegrityError)
                && final(reader).position() == old(reader).position()
                && final(self)@ == old(self)@,
    {
        match self {
            TiffDataArray::UnsignedInt(v) => match reader.read_u16() {
                Ok(x) => {
                    v.push(x);
                    assert(final(self)@ =~= old(self)@.push(TiffSample::U16(x)));
                    Ok(())
                },
                Err(e) => Err(e),
            },
            TiffDataArray::SignedInt(v) => match reader.read_i16() {
                Ok(x) => {
                    v.push(x);
                    assert(final(self)@ =~= old(self)@.push(TiffSample::I16(x)));
                    Ok(())
                },
                Err(e) => Err(e),
            },
            TiffDataArray::Float(v) => match reader.read_u32() {
                Ok(x) => {
                    v.push(x);
                    assert(final(self)@ =~= old(self)@.push(TiffSample::F32(x)));
                    Ok(())
                },
                Err(e) => Err(e),
            },
        }
    }

    /// The number of samples.
    pub fn len(&self) -> (n: usize)
        ensures
            n == self@.len(),
    {
        match self {
            TiffDataArray::UnsignedInt(v) => v.len(),
            TiffDataArray::SignedInt(v) => v.len(),
            TiffDataArray::Float(v) => v.len(),
        }
    }

    /// The sample at `index`, tagged with the storage's kind.
    pub fn get(&self, index: usize) -> (sample: TiffSample)
        requires
            index < self@.len(),
        ensures
            sample == self@[index as int],
    {
        match self {
            TiffDataArray::UnsignedInt(v) => TiffSample::U16(v[index]),
            TiffDataArray::SignedInt(v) => TiffSample::I16(v[index]),
            TiffDataArray::Float(v) => TiffSample::F32(v[index]),
        }
    }
}


/// A raster: its metadata, its grid and, once they are loaded, its pixel
/// samples. The grid is always the one that the metadata gives, and
/// loaded samples are exactly one for each pixel.
#[derive(Debug)]
pub struct TiffDataset {
    ifd: TiffIfd,
    grid: GeoGrid,
    data: Option<TiffDataArray>,
}

impl TiffDataset {
    /// The metadata.
    pub closed spec fn metadata(&self) -> IfdModel {
        self.ifd@
    }

    /// The grid.
    pub closed spec fn coordinates(&self) -> GeoGrid {
        self.grid
    }

    /// The pixel samples in row order, if they are loaded.
    pub closed spec fn pixels(&self) -> Option<Seq<TiffSample>> {
        match self.data {
            Some(data) => Some(data@),
            None => None,
        }
    }

    /// What holds of every dataset.
    pub open spec fn wf(&self) -> bool {
        &&& georeference(self.metadata()) == Ok::<GeoGrid, TiffError>(self.coordinates())
        &&& self.pixels() matches Some(samples) ==> samples.len() == self.metadata().image_width
            * self.metadata().image_length
    }

    #[verifier::type_invariant]
    spec fn type_inv(&self) -> bool {
        self.wf()
    }

    /// Makes a dataset of the metadata, with no pixel samples yet. Metadata
    /// without a grid makes none.
    pub fn from_ifd(ifd: TiffIfd) -> (made: Result<TiffDataset, TiffError>)
        ensures
            match georeference(ifd@) {
                Ok(grid) => made is Ok && made->Ok_0.metadata() == ifd@ && made->Ok_0.coordinates()
                    == grid && made->Ok_0.pixels() is None && made->Ok_0.wf(),
                Err(e) => made is Err && made->Err_0 == e,
            },
    {
        match ifd.generate_coordinates() {
            Ok(grid) => Ok(TiffDataset { ifd, grid, data: None }),
            Err(e) => Err(e),
        }
    }

    /// The metadata.
    pub fn ifd(&self) -> (ifd: &TiffIfd)
        ensures
            ifd@ == self.metadata(),
    {
        &self.ifd
    }

    /// The grid.
    pub fn grid(&self) -> (grid: GeoGrid)
        ensures
            grid == self.coordinates(),
            self.wf(),
    {
        proof {
            use_type_invariant(self);
        }
        self.grid
    }

    /// Whether the pixel samples are loaded.
    pub fn is_loaded(&self) -> (yes: bool)
        ensures
            yes == self.pixels() is Some,
    {
        self.data.is_some()
    }

    /// The number of loaded pixel samples, if they are loaded.
    pub fn sample_count(&self) -> (n: Option<usize>)
        ensures
            match self.pixels() {
                Some(samples) => n == Some(samples.len() as usize) && samples.len()
                    == self.metadata().image_width * self.metadata().image_length,
                None => n is None,
            },
    {
        proof {
            use_type_invariant(self);
        }
        match &self.data {
            Some(data) => Some(data.len()),
            None => None,
        }
    }

    /// Loads the pixel samples from the strips of the reader's buffer.
    /// Where they are loaded already, nothing happens and nothing is read.
    /// On an error the dataset stays as it was.
    pub fn load_data(&mut self, reader: &mut TiffReader) -> (done: Result<(), TiffError>)
        ensures
            final(self).wf(),
            final(self).metadata() == old(self).metadata(),
            final(self).coordinates() == old(self).coordinates(),
            old(reader).same_buffer(final(reader)),
            old(self).pixels() is Some ==> done is Ok && final(self).pixels() == old(self).pixels()
                && final(reader).position() == old(reader).position(),
            old(self).pixels() is None ==> match pixels_of(
                old(self).metadata(),
                old(reader).bytes(),
                old(reader).order(),
            ) {
                Ok(samples) => done is Ok && final(self).pixels() == Some(samples),
                Err(e) => done == Err::<(), TiffError>(e) && final(self).pixels() is None,
            },
    {
        proof {
            use_type_invariant(&*self);
        }
        if self.data.is_some() {
            return Ok(());
        }
        let mut data = match TiffDataArray::for_format(self.ifd.sample_format) {
            Some(data) => data,
            None => { return Err(TiffError::UndefinedSampleFormat); },
        };
        let kind = data.sample_kind();
        let width = kind.width();
        let bytesize: u32 = (self.ifd.bits_per_sample / 8) as u32;
        let n_strips = self.ifd.strip_offsets.len();
        if bytesize == 0 || n_strips != self.ifd.strip_byte_counts.len() {
            return Err(TiffError::IntegrityError);
        }
        let ghost bytes = reader.bytes();
        let ghost order = reader.order();
        let ghost offsets = self.ifd.strip_offsets@;
        let ghost byte_counts = self.ifd.strip_byte_counts@;
        let mut i: usize = 0;
        while i < n_strips
            invariant
                old(reader).same_buffer(reader),
                bytes == reader.bytes(),
                order == reader.order(),
                offsets == self.ifd.strip_offsets@,
                byte_counts == self.ifd.strip_byte_counts@,
                n_strips == offsets.len(),
                n_strips == byte_counts.len(),
                bytesize == self.ifd.bits_per_sample as int / 8,
                bytesize > 0,
                data.kind() == kind,
                width == kind.spec_width(),
                i <= n_strips,
                load_strips(bytes, order, kind, offsets, byte_counts, bytesize as int, i as nat)
                    == Ok::<Seq<TiffSample>, TiffError>(data@),
                self.ifd == old(self).ifd,
                self.grid == old(self).grid,
                self.data is None,
                old(self).data is None,
                old(self).wf(),
                SampleKind::of_format(self.ifd.sample_format) == Some(kind),
            decreases n_strips - i,
        {
            let n_entry: u32 = self.ifd.strip_byte_counts[i] / bytesize;
            let start: u32 = self.ifd.strip_offsets[i];
            if n_entry > 0 && !reader.holds(start, n_entry, width) {
                proof {
                    lemma_load_error_stays(
                        bytes,
                        order,
                        kind,
                        offsets,
                        byte_counts,
                        bytesize as int,
                        (i + 1) as nat,
                        n_strips as nat,
                    );
                }
                return Err(TiffError::IntegrityError);
            }
            reader.set_offset(start);
            let ghost before = data@;
            let mut k: u32 = 0;
            while k < n_entry
                invariant
                    old(reader).same_buffer(reader),
                    bytes == reader.bytes(),
                    order == reader.order(),
                    data.kind() == kind,
                    width == kind.spec_width(),
                    k <= n_entry,
                    n_entry > 0 ==> in_bounds(bytes, start as int, n_entry * width),
                    reader.position() == start + k * width,
                    data@ == before + strip_samples(bytes, order, kind, start as int, k as nat),
                decreases n_entry - k,
            {
                assert((k + 1) * width <= n_entry * width && (k + 1) * width == k * width + width)
                    by (nonlinear_arith)
                    requires
                        k < n_entry,
                        width >= 0,
                ;
                match data.push_reader(reader) {
                    Ok(()) => {},
                    Err(e) => { return Err(e); },
                }
                assert(data@ =~= before + strip_samples(
                    bytes,
                    order,
                    kind,
                    start as int,
                    (k + 1) as nat,
                ));
                k = k + 1;
            }
            i = i + 1;
        }
        assert(self.ifd.image_width * self.ifd.image_length <= 0xFFFF_FFFF * 0xFFFF_FFFF)
            by (nonlinear_arith)
            requires
                self.ifd.image_width <= 0xFFFF_FFFF,
                self.ifd.image_length <= 0xFFFF_FFFF,
        ;
        let wanted: u64 = self.ifd.image_width as u64 * self.ifd.image_length as u64;
        if data.len() as u64 != wanted {
            return Err(TiffError::IntegrityError);
        }
        self.data = Some(data);
        Ok(())
    }

    /// The sample in row `i` and column `j`: the one at index
    /// `i * image_width + j` of the loaded samples. Before the samples are
    /// loaded there is none.
    pub fn get(&self, i: usize, j: usize) -> (sample: Result<TiffSample, TiffError>)
        requires
            self.pixels() matches Some(samples) ==> i * self.metadata().image_width + j
                < samples.len(),
        ensures
            match self.pixels() {
                Some(samples) => sample == Ok::<TiffSample, TiffError>(
                    samples[i * self.metadata().image_width + j],
                ),
                None => sample == Err::<TiffSample, TiffError>(TiffError::NoDataLoaded),
            },
    {
        match &self.data {
            Some(data) => {
                let _len: usize = data.len();
                assert(i * self.ifd.image_width >= 0) by (nonlinear_arith);
                Ok(data.get(i * (self.ifd.image_width as usize) + j))
            },
            None => Err(TiffError::NoDataLoaded),
        }
    }
}

} // verus!
