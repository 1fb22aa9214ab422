use tiff_reader::bytes::Endianness;
use tiff_reader::dataset::{SampleKind, TiffDataArray, TiffDataset, TiffSample};
use tiff_reader::directory::{IfdEntry, Payload, TiffDataType, TiffIfd};
use tiff_reader::error::TiffError;
use tiff_reader::georef::{GeoGrid, GridRule};
use tiff_reader::reader::TiffReader;

const SHORT: u16 = 3;
const LONG: u16 = 4;
const FLOAT: u16 = 11;
const DOUBLE: u16 = 12;

struct Builder {
    big: bool,
    bytes: Vec<u8>,
    entries: Vec<(u16, u16, u32, u32)>,
}

impl Builder {
    fn new(big: bool) -> Builder {
        Builder::with_magic(big, 42)
    }

    fn with_magic(big: bool, magic: u16) -> Builder {
        let mut b = Builder { big, bytes: Vec::new(), entries: Vec::new() };
        b.bytes.extend_from_slice(if big { b"MM" } else { b"II" });
        b.put16(magic);
        b.put32(0);
        b
    }

    fn put16(&mut self, v: u16) {
        let raw = if self.big { v.to_be_bytes() } else { v.to_le_bytes() };
        self.bytes.extend_from_slice(&raw);
    }

    fn put32(&mut self, v: u32) {
        let raw = if self.big { v.to_be_bytes() } else { v.to_le_bytes() };
        self.bytes.extend_from_slice(&raw);
    }

    fn put64(&mut self, v: u64) {
        let raw = if self.big { v.to_be_bytes() } else { v.to_le_bytes() };
        self.bytes.extend_from_slice(&raw);
    }

    fn here(&self) -> u32 {
        self.bytes.len() as u32
    }

    fn shorts(&mut self, values: &[u16]) -> u32 {
        let at = self.here();
        for v in values {
            self.put16(*v);
        }
        at
    }

    fn longs(&mut self, values: &[u32]) -> u32 {
        let at = self.here();
        for v in values {
            self.put32(*v);
        }
        at
    }

    fn singles(&mut self, values: &[f32]) -> u32 {
        let at = self.here();
        for v in values {
            self.put32(v.to_bits());
        }
        at
    }

    fn doubles(&mut self, values: &[f64]) -> u32 {
        let at = self.here();
        for v in values {
            self.put64(v.to_bits());
        }
        at
    }

    fn text(&mut self, raw: &[u8]) -> u32 {
        let at = self.here();
        self.bytes.extend_from_slice(raw);
        at
    }

    fn entry(&mut self, tag: u16, field_type: u16, count: u32, value: u32) {
        self.entries.push((tag, field_type, count, value));
    }

    fn finish(mut self, next: u32) -> Vec<u8> {
        let first = self.here();
        let raw = if self.big { first.to_be_bytes() } else { first.to_le_bytes() };
        self.bytes[4..8].copy_from_slice(&raw);
        let entries = self.entries.clone();
        self.put16(entries.len() as u16);
        for (tag, field_type, count, value) in entries {
            self.put16(tag);
            self.put16(field_type);
            self.put32(count);
            self.put32(value);
        }
        self.put32(next);
        self.bytes
    }
}

const TRANSFORM: [f64; 16] =
    [2.0, 0.0, 0.0, 100.0, 0.0, -2.0, 0.0, 200.0, 0.0, 0.0, 1.0, 0.0, 0.0, 0.0, 0.0, 1.0];

/// A raster of three columns and two rows of unsigned samples 10 to 60 in
/// one strip, with the given sample format.
fn basic(big: bool, sample_format: u32) -> Builder {
    let mut b = Builder::new(big);
    let strip = b.shorts(&[10, 20, 30, 40, 50, 60]);
    let offsets = b.longs(&[strip]);
    let counts = b.longs(&[12]);
    b.entry(256, LONG, 1, 3);
    b.entry(257, LONG, 1, 2);
    b.entry(258, SHORT, 1, 16);
    b.entry(259, SHORT, 1, 1);
    b.entry(262, SHORT, 1, 1);
    b.entry(273, LONG, 1, offsets);
    b.entry(277, SHORT, 1, 1);
    b.entry(278, LONG, 1, 2);
    b.entry(279, LONG, 1, counts);
    b.entry(284, SHORT, 1, 1);
    b.entry(339, SHORT, 1, sample_format);
    b
}

fn with_transform(big: bool, sample_format: u32) -> Vec<u8> {
    let mut b = basic(big, sample_format);
    let at = b.doubles(&TRANSFORM);
    b.entry(34264, DOUBLE, 16, at);
    b.finish(0)
}

fn with_tie_point(big: bool, tie: &[f64], scale: &[f64]) -> Vec<u8> {
    let mut b = basic(big, 1);
    let tie_at = b.doubles(tie);
    let scale_at = b.doubles(scale);
    b.entry(33922, DOUBLE, tie.len() as u32, tie_at);
    b.entry(33550, DOUBLE, scale.len() as u32, scale_at);
    b.finish(0)
}

fn open(bytes: Vec<u8>) -> Result<(TiffReader, TiffDataset), TiffError> {
    let mut reader = TiffReader::new(bytes)?;
    let dataset = reader.read_tiff()?;
    Ok((reader, dataset))
}

fn error_of(bytes: Vec<u8>) -> TiffError {
    match open(bytes) {
        Ok(_) => panic!("the file was read"),
        Err(e) => e,
    }
}

fn xs(grid: &GeoGrid) -> Vec<f64> {
    axis(grid.rule, grid.nx, grid.x_origin, grid.x_step, false)
}

fn ys(grid: &GeoGrid) -> Vec<f64> {
    axis(grid.rule, grid.ny, grid.y_origin, grid.y_step, true)
}

fn axis(rule: GridRule, n: u32, origin: u64, step: u64, falling: bool) -> Vec<f64> {
    let origin = f64::from_bits(origin);
    let step = f64::from_bits(step);
    let mut out = Vec::new();
    for i in 0..n {
        let v = match rule {
            GridRule::Affine => origin + step * (i as f64),
            GridRule::TiePoint => {
                if i == 0 {
                    origin
                } else if falling {
                    out[(i - 1) as usize] - step
                } else {
                    out[(i - 1) as usize] + step
                }
            }
        };
        out.push(v);
    }
    out
}

#[test]
fn marker_fixes_the_byte_order() {
    let little = TiffReader::new(with_transform(false, 1)).unwrap();
    assert_eq!(little.endianness(), Endianness::Little);
    assert_eq!(little.offset(), 0);
    let big = TiffReader::new(with_transform(true, 1)).unwrap();
    assert_eq!(big.endianness(), Endianness::Big);
    assert_eq!(big.len(), little.len());
}

#[test]
fn unknown_marker_is_refused() {
    assert!(matches!(TiffReader::new(b"IM*\0".to_vec()), Err(TiffError::BadByteOrderMarker)));
    assert!(matches!(TiffReader::new(b"I".to_vec()), Err(TiffError::BadByteOrderMarker)));
    assert!(matches!(TiffReader::new(Vec::new()), Err(TiffError::BadByteOrderMarker)));
}

#[test]
fn scalars_follow_the_byte_order() {
    let mut little = TiffReader::new(vec![0x49, 0x49, 0x01, 0x02, 0x03, 0x04, 0xFE, 0xFF]).unwrap();
    little.set_offset(2);
    assert_eq!(little.read_u16(), Ok(0x0201));
    assert_eq!(little.offset(), 4);
    little.set_offset(2);
    assert_eq!(little.read_u32(), Ok(0x04030201));
    little.set_offset(6);
    assert_eq!(little.read_i16(), Ok(-2));
    let mut big = TiffReader::new(vec![0x4D, 0x4D, 0x01, 0x02, 0x03, 0x04, 0xFF, 0xFE]).unwrap();
    big.set_offset(2);
    assert_eq!(big.read_u16(), Ok(0x0102));
    big.set_offset(2);
    assert_eq!(big.read_u32(), Ok(0x01020304));
    big.set_offset(6);
    assert_eq!(big.read_i16(), Ok(-2));
    big.set_offset(0);
    assert_eq!(big.read_u64(), Ok(0x4D4D_0102_0304_FFFE));
    assert_eq!(big.offset(), 8);
    little.set_offset(0);
    assert_eq!(little.read_u64(), Ok(0xFFFE_0403_0201_4949));
}

#[test]
fn reads_past_the_end_fail_and_do_not_move() {
    let mut reader = TiffReader::new(vec![0x49, 0x49, 0x2A, 0x00, 0x01]).unwrap();
    reader.set_offset(4);
    assert_eq!(reader.read_u16(), Err(TiffError::IntegrityError));
    assert_eq!(reader.offset(), 4);
    reader.set_offset(2);
    assert_eq!(reader.read_u32(), Err(TiffError::IntegrityError));
    assert_eq!(reader.read_u64(), Err(TiffError::IntegrityError));
    assert_eq!(reader.offset(), 2);
    reader.set_offset(4_000_000_000);
    assert_eq!(reader.read_i16(), Err(TiffError::IntegrityError));
    assert_eq!(reader.offset(), 4_000_000_000);
}

#[test]
fn both_byte_orders_give_the_same_metadata() {
    let (_, little) = open(with_transform(false, 1)).unwrap();
    let (_, big) = open(with_transform(true, 1)).unwrap();
    let (a, b) = (little.ifd(), big.ifd());
    assert_eq!(a.image_width, 3);
    assert_eq!(a.image_length, 2);
    assert_eq!(a.bits_per_sample, 16);
    assert_eq!(a.compression, 1);
    assert_eq!(a.photometric_interpretation, 1);
    assert_eq!(a.samples_per_pixel, 1);
    assert_eq!(a.rows_per_strip, 2);
    assert_eq!(a.planar_configuration, 1);
    assert_eq!(a.sample_format, 1);
    assert_eq!(a.strip_offsets, vec![8]);
    assert_eq!(a.strip_byte_counts, vec![12]);
    assert_eq!(a.image_width, b.image_width);
    assert_eq!(a.image_length, b.image_length);
    assert_eq!(a.bits_per_sample, b.bits_per_sample);
    assert_eq!(a.compression, b.compression);
    assert_eq!(a.photometric_interpretation, b.photometric_interpretation);
    assert_eq!(a.samples_per_pixel, b.samples_per_pixel);
    assert_eq!(a.rows_per_strip, b.rows_per_strip);
    assert_eq!(a.planar_configuration, b.planar_configuration);
    assert_eq!(a.sample_format, b.sample_format);
    assert_eq!(a.strip_offsets, b.strip_offsets);
    assert_eq!(a.strip_byte_counts, b.strip_byte_counts);
    assert_eq!(a.projection, b.projection);
    assert_eq!(a.model_tie_points, b.model_tie_points);
    assert_eq!(a.model_pixel_scale_tag, b.model_pixel_scale_tag);
    assert_eq!(a.model_transformation_tag, b.model_transformation_tag);
    assert_eq!(a.geo_double_params_tag, b.geo_double_params_tag);
    assert_eq!(a.unknown_tags, b.unknown_tags);
    assert_eq!(little.grid(), big.grid());
}

#[test]
fn chained_directory_is_refused() {
    for big in [false, true] {
        let mut b = basic(big, 1);
        let at = b.doubles(&TRANSFORM);
        b.entry(34264, DOUBLE, 16, at);
        assert_eq!(error_of(b.finish(8)), TiffError::ChainedDirectoryUnsupported);
    }
}

#[test]
fn chained_directory_comes_before_the_sample_format() {
    let mut b = basic(false, 4);
    let at = b.doubles(&TRANSFORM);
    b.entry(34264, DOUBLE, 16, at);
    assert_eq!(error_of(b.finish(1)), TiffError::ChainedDirectoryUnsupported);
}

#[test]
fn grid_has_one_coordinate_for_each_column_and_row() {
    let (_, dataset) = open(with_transform(false, 1)).unwrap();
    let grid = dataset.grid();
    assert_eq!(grid.nx, dataset.ifd().image_width);
    assert_eq!(grid.ny, dataset.ifd().image_length);
    assert_eq!(xs(&grid).len(), 3);
    assert_eq!(ys(&grid).len(), 2);
    let (_, tied) =
        open(with_tie_point(true, &[0.0, 0.0, 0.0, 5.0, 9.0, 0.0], &[0.5, 0.25, 0.0])).unwrap();
    assert_eq!(tied.grid().nx, 3);
    assert_eq!(tied.grid().ny, 2);
}

#[test]
fn transformation_gives_affine_coordinates() {
    let (_, dataset) = open(with_transform(true, 1)).unwrap();
    let grid = dataset.grid();
    assert_eq!(
        grid,
        GeoGrid {
            nx: 3,
            ny: 2,
            x_origin: 100.0f64.to_bits(),
            x_step: 2.0f64.to_bits(),
            y_origin: 200.0f64.to_bits(),
            y_step: (-2.0f64).to_bits(),
            rule: GridRule::Affine,
        }
    );
    assert_eq!(xs(&grid), vec![100.0, 102.0, 104.0]);
    assert_eq!(ys(&grid), vec![200.0, 198.0]);
}

#[test]
fn tie_point_gives_stepped_coordinates() {
    let bytes = with_tie_point(false, &[0.0, 0.0, 0.0, 5.0, 9.0, 0.0], &[0.5, 0.25, 0.0]);
    let (_, dataset) = open(bytes).unwrap();
    let grid = dataset.grid();
    assert_eq!(
        grid,
        GeoGrid {
            nx: 3,
            ny: 2,
            x_origin: 5.0f64.to_bits(),
            x_step: 0.5f64.to_bits(),
            y_origin: 9.0f64.to_bits(),
            y_step: 0.25f64.to_bits(),
            rule: GridRule::TiePoint,
        }
    );
    assert_eq!(xs(&grid), vec![5.0, 5.5, 6.0]);
    assert_eq!(ys(&grid), vec![9.0, 8.75]);
}

#[test]
fn transformation_wins_over_tie_point() {
    let mut b = basic(false, 1);
    let tie_at = b.doubles(&[0.0, 0.0, 0.0, 5.0, 9.0, 0.0]);
    let scale_at = b.doubles(&[0.5, 0.25, 0.0]);
    let at = b.doubles(&TRANSFORM);
    b.entry(33922, DOUBLE, 6, tie_at);
    b.entry(33550, DOUBLE, 3, scale_at);
    b.entry(34264, DOUBLE, 16, at);
    let (_, dataset) = open(b.finish(0)).unwrap();
    assert_eq!(dataset.grid().rule, GridRule::Affine);
    assert_eq!(dataset.grid().x_origin, 100.0f64.to_bits());
}

#[test]
fn rotated_transformation_is_refused() {
    let mut rotated = TRANSFORM;
    rotated[1] = 0.001;
    let mut b = basic(false, 1);
    let at = b.doubles(&rotated);
    b.entry(34264, DOUBLE, 16, at);
    assert_eq!(error_of(b.finish(0)), TiffError::InvalidTransformation);
    let mut rotated = TRANSFORM;
    rotated[4] = -3.0;
    let mut b = basic(true, 1);
    let at = b.doubles(&rotated);
    b.entry(34264, DOUBLE, 16, at);
    assert_eq!(error_of(b.finish(0)), TiffError::InvalidTransformation);
}

#[test]
fn negligible_rotation_is_accepted() {
    let mut nearly = TRANSFORM;
    nearly[1] = f64::EPSILON;
    nearly[4] = -1.0e-300;
    let mut b = basic(false, 1);
    let at = b.doubles(&nearly);
    b.entry(34264, DOUBLE, 16, at);
    assert!(open(b.finish(0)).is_ok());
}

#[test]
fn short_transformation_is_refused() {
    let mut b = basic(false, 1);
    let at = b.doubles(&TRANSFORM[..15]);
    b.entry(34264, DOUBLE, 15, at);
    assert_eq!(error_of(b.finish(0)), TiffError::InvalidTransformation);
}

#[test]
fn long_transformation_is_cut_to_sixteen() {
    let mut b = basic(false, 1);
    let mut long = TRANSFORM.to_vec();
    long.push(7.0);
    let at = b.doubles(&long);
    b.entry(34264, DOUBLE, 17, at);
    let (_, dataset) = open(b.finish(0)).unwrap();
    let expected: Vec<u64> = TRANSFORM.iter().map(|v| v.to_bits()).collect();
    assert_eq!(dataset.ifd().model_transformation_tag, Some(expected));
}

#[test]
fn missing_georeferencing_is_refused() {
    assert_eq!(error_of(basic(false, 1).finish(0)), TiffError::InvalidTransformation);
    let mut b = basic(false, 1);
    let tie_at = b.doubles(&[0.0, 0.0, 0.0, 5.0, 9.0, 0.0]);
    b.entry(33922, DOUBLE, 6, tie_at);
    assert_eq!(error_of(b.finish(0)), TiffError::InvalidTransformation);
}

#[test]
fn tie_point_must_anchor_the_first_pixel() {
    let bytes = with_tie_point(false, &[1.0, 0.0, 0.0, 5.0, 9.0, 0.0], &[0.5, 0.25, 0.0]);
    assert_eq!(error_of(bytes), TiffError::InvalidTransformation);
    let bytes = with_tie_point(false, &[0.0, 2.5, 0.0, 5.0, 9.0, 0.0], &[0.5, 0.25, 0.0]);
    assert_eq!(error_of(bytes), TiffError::InvalidTransformation);
    let bytes = with_tie_point(false, &[0.5, 0.0, 0.0, 5.0, 9.0, 0.0], &[0.5, 0.25, 0.0]);
    assert_eq!(error_of(bytes), TiffError::InvalidTransformation);
    let bytes = with_tie_point(false, &[0.0, -3.0, 0.0, 5.0, 9.0, 0.0], &[0.5, 0.25, 0.0]);
    assert_eq!(error_of(bytes), TiffError::InvalidTransformation);
    let bytes = with_tie_point(false, &[f64::NAN, 0.0, 0.0, 5.0, 9.0, 0.0], &[0.5, 0.25, 0.0]);
    assert_eq!(error_of(bytes), TiffError::InvalidTransformation);
    let bytes = with_tie_point(false, &[-0.0, 0.0, 0.0, 5.0, 9.0, 0.0], &[0.5, 0.25, 0.0]);
    assert!(open(bytes).is_ok());
}

#[test]
fn tie_point_needs_six_numbers_and_two_steps() {
    let bytes = with_tie_point(false, &[0.0, 0.0, 0.0, 5.0, 9.0], &[0.5, 0.25, 0.0]);
    assert_eq!(error_of(bytes), TiffError::InvalidTransformation);
    let bytes = with_tie_point(false, &[0.0, 0.0, 0.0, 5.0, 9.0, 0.0], &[0.5]);
    assert_eq!(error_of(bytes), TiffError::InvalidTransformation);
}

#[test]
fn raster_without_pixels_has_no_grid() {
    let mut b = Builder::new(false);
    let at = b.doubles(&TRANSFORM);
    b.entry(256, LONG, 1, 0);
    b.entry(257, LONG, 1, 2);
    b.entry(34264, DOUBLE, 16, at);
    assert_eq!(error_of(b.finish(0)), TiffError::InvalidTransformation);
}

#[test]
fn loading_twice_reads_once() {
    let (mut reader, mut dataset) = open(with_transform(false, 1)).unwrap();
    assert_eq!(dataset.sample_count(), None);
    assert_eq!(dataset.load_data(&mut reader), Ok(()));
    assert_eq!(dataset.sample_count(), Some(6));
    let first: Vec<TiffSample> =
        (0..2).flat_map(|i| (0..3).map(move |j| (i, j))).map(|(i, j)| dataset.get(i, j).unwrap()).collect();
    reader.set_offset(77);
    assert_eq!(dataset.load_data(&mut reader), Ok(()));
    assert_eq!(reader.offset(), 77);
    assert_eq!(dataset.sample_count(), Some(6));
    let second: Vec<TiffSample> =
        (0..2).flat_map(|i| (0..3).map(move |j| (i, j))).map(|(i, j)| dataset.get(i, j).unwrap()).collect();
    assert_eq!(first, second);
}

#[test]
fn samples_need_loading() {
    for big in [false, true] {
        let (mut reader, mut dataset) = open(with_transform(big, 1)).unwrap();
        assert!(!dataset.is_loaded());
        assert_eq!(dataset.get(0, 0), Err(TiffError::NoDataLoaded));
        dataset.load_data(&mut reader).unwrap();
        assert!(dataset.is_loaded());
        assert_eq!(dataset.get(0, 0), Ok(TiffSample::U16(10)));
        assert_eq!(dataset.get(0, 2), Ok(TiffSample::U16(30)));
        assert_eq!(dataset.get(1, 0), Ok(TiffSample::U16(40)));
        assert_eq!(dataset.get(1, 2), Ok(TiffSample::U16(60)));
    }
}

#[test]
fn signed_and_float_samples_keep_their_kind() {
    let mut b = Builder::new(true);
    let strip = b.shorts(&[0xFFFF, 0x8000, 7, 0x7FFF]);
    let offsets = b.longs(&[strip]);
    let counts = b.longs(&[8]);
    let at = b.doubles(&TRANSFORM);
    b.entry(256, LONG, 1, 2);
    b.entry(257, LONG, 1, 2);
    b.entry(258, LONG, 1, 16);
    b.entry(273, LONG, 1, offsets);
    b.entry(279, LONG, 1, counts);
    b.entry(339, LONG, 1, 2);
    b.entry(34264, DOUBLE, 16, at);
    let (mut reader, mut dataset) = open(b.finish(0)).unwrap();
    dataset.load_data(&mut reader).unwrap();
    assert_eq!(dataset.get(0, 0), Ok(TiffSample::I16(-1)));
    assert_eq!(dataset.get(0, 1), Ok(TiffSample::I16(i16::MIN)));
    assert_eq!(dataset.get(1, 0), Ok(TiffSample::I16(7)));
    assert_eq!(dataset.get(1, 1), Ok(TiffSample::I16(i16::MAX)));

    let mut b = Builder::new(false);
    let strip = b.singles(&[1.5, -0.25]);
    let offsets = b.longs(&[strip]);
    let counts = b.longs(&[8]);
    let at = b.doubles(&TRANSFORM);
    b.entry(256, LONG, 1, 2);
    b.entry(257, LONG, 1, 1);
    b.entry(258, LONG, 1, 32);
    b.entry(273, LONG, 1, offsets);
    b.entry(279, LONG, 1, counts);
    b.entry(339, LONG, 1, 3);
    b.entry(34264, DOUBLE, 16, at);
    let (mut reader, mut dataset) = open(b.finish(0)).unwrap();
    dataset.load_data(&mut reader).unwrap();
    assert_eq!(dataset.get(0, 0), Ok(TiffSample::F32(1.5f32.to_bits())));
    assert_eq!(dataset.get(0, 1), Ok(TiffSample::F32((-0.25f32).to_bits())));
}

#[test]
fn strips_are_joined_in_order() {
    let mut b = Builder::new(false);
    let second = b.shorts(&[4, 5, 6]);
    let first = b.shorts(&[1, 2, 3]);
    let offsets = b.shorts(&[first as u16, second as u16]);
    let counts = b.shorts(&[6, 6]);
    let at = b.doubles(&TRANSFORM);
    b.entry(256, LONG, 1, 3);
    b.entry(257, LONG, 1, 2);
    b.entry(258, LONG, 1, 16);
    b.entry(273, SHORT, 2, offsets);
    b.entry(279, SHORT, 2, counts);
    b.entry(339, LONG, 1, 1);
    b.entry(34264, DOUBLE, 16, at);
    let (mut reader, mut dataset) = open(b.finish(0)).unwrap();
    assert_eq!(dataset.ifd().strip_offsets, vec![first, second]);
    assert_eq!(dataset.ifd().strip_byte_counts, vec![6, 6]);
    dataset.load_data(&mut reader).unwrap();
    let all: Vec<TiffSample> =
        (0..2).flat_map(|i| (0..3).map(move |j| (i, j))).map(|(i, j)| dataset.get(i, j).unwrap()).collect();
    assert_eq!(all, (1..=6).map(TiffSample::U16).collect::<Vec<_>>());
}

#[test]
fn undefined_sample_format_is_refused() {
    for big in [false, true] {
        assert_eq!(error_of(with_transform(big, 4)), TiffError::UndefinedSampleFormat);
    }
}

#[test]
fn unset_sample_format_fails_at_loading() {
    let (mut reader, mut dataset) = open(with_transform(false, 0)).unwrap();
    assert_eq!(dataset.load_data(&mut reader), Err(TiffError::UndefinedSampleFormat));
    assert!(!dataset.is_loaded());
    let (mut reader, mut dataset) = open(with_transform(false, 9)).unwrap();
    assert_eq!(dataset.load_data(&mut reader), Err(TiffError::UndefinedSampleFormat));
    assert_eq!(dataset.get(0, 0), Err(TiffError::NoDataLoaded));
}

#[test]
fn wrong_sample_count_is_an_integrity_error() {
    for count in [10u32, 14] {
        let mut b = Builder::new(false);
        let strip = b.shorts(&[10, 20, 30, 40, 50, 60, 70]);
        let offsets = b.longs(&[strip]);
        let counts = b.longs(&[count]);
        let at = b.doubles(&TRANSFORM);
        b.entry(256, LONG, 1, 3);
        b.entry(257, LONG, 1, 2);
        b.entry(258, LONG, 1, 16);
        b.entry(273, LONG, 1, offsets);
        b.entry(279, LONG, 1, counts);
        b.entry(339, LONG, 1, 1);
        b.entry(34264, DOUBLE, 16, at);
        let (mut reader, mut dataset) = open(b.finish(0)).unwrap();
        assert_eq!(dataset.load_data(&mut reader), Err(TiffError::IntegrityError));
        assert!(!dataset.is_loaded());
        assert_eq!(dataset.sample_count(), None);
    }
}

#[test]
fn strip_past_the_end_is_an_integrity_error() {
    let mut b = Builder::new(false);
    let offsets = b.longs(&[100_000]);
    let counts = b.longs(&[12]);
    let at = b.doubles(&TRANSFORM);
    b.entry(256, LONG, 1, 3);
    b.entry(257, LONG, 1, 2);
    b.entry(258, LONG, 1, 16);
    b.entry(273, LONG, 1, offsets);
    b.entry(279, LONG, 1, counts);
    b.entry(339, LONG, 1, 1);
    b.entry(34264, DOUBLE, 16, at);
    let (mut reader, mut dataset) = open(b.finish(0)).unwrap();
    assert_eq!(dataset.load_data(&mut reader), Err(TiffError::IntegrityError));
}

#[test]
fn unequal_strip_tables_are_an_integrity_error() {
    let mut b = Builder::new(false);
    let strip = b.shorts(&[10, 20, 30, 40, 50, 60]);
    let offsets = b.longs(&[strip, strip]);
    let counts = b.longs(&[12]);
    let at = b.doubles(&TRANSFORM);
    b.entry(256, LONG, 1, 3);
    b.entry(257, LONG, 1, 2);
    b.entry(258, LONG, 1, 16);
    b.entry(273, LONG, 2, offsets);
    b.entry(279, LONG, 1, counts);
    b.entry(339, LONG, 1, 1);
    b.entry(34264, DOUBLE, 16, at);
    let (mut reader, mut dataset) = open(b.finish(0)).unwrap();
    assert_eq!(dataset.load_data(&mut reader), Err(TiffError::IntegrityError));
}

#[test]
fn samples_of_less_than_a_byte_are_an_integrity_error() {
    let mut b = basic(false, 1);
    b.entry(258, SHORT, 1, 7);
    let at = b.doubles(&TRANSFORM);
    b.entry(34264, DOUBLE, 16, at);
    let (mut reader, mut dataset) = open(b.finish(0)).unwrap();
    assert_eq!(dataset.ifd().bits_per_sample, 7);
    assert_eq!(dataset.load_data(&mut reader), Err(TiffError::IntegrityError));
}

#[test]
fn magic_number_is_checked() {
    let b = Builder::with_magic(false, 43);
    assert_eq!(error_of(b.finish(0)), TiffError::UnsupportedBigVariant);
    let b = Builder::with_magic(true, 43);
    assert_eq!(error_of(b.finish(0)), TiffError::UnsupportedBigVariant);
    let b = Builder::with_magic(false, 41);
    assert_eq!(error_of(b.finish(0)), TiffError::BadMagicNumber);
    let b = Builder::with_magic(true, 0x2A00);
    assert_eq!(error_of(b.finish(0)), TiffError::BadMagicNumber);
}

#[test]
fn truncated_files_are_integrity_errors() {
    let whole = with_transform(false, 1);
    assert_eq!(error_of(whole[..2].to_vec()), TiffError::IntegrityError);
    assert_eq!(error_of(whole[..6].to_vec()), TiffError::IntegrityError);
    assert_eq!(error_of(whole[..whole.len() - 1].to_vec()), TiffError::IntegrityError);
    assert_eq!(error_of(whole[..whole.len() - 4].to_vec()), TiffError::IntegrityError);
    assert_eq!(error_of(whole[..whole.len() - 20].to_vec()), TiffError::IntegrityError);
    let mut far = whole.clone();
    far[4..8].copy_from_slice(&0xFFFF_FFF0u32.to_le_bytes());
    assert_eq!(error_of(far), TiffError::IntegrityError);
}

#[test]
fn vector_past_the_end_is_an_integrity_error() {
    let mut b = basic(false, 1);
    let at = b.doubles(&TRANSFORM);
    b.entry(34264, DOUBLE, 16, at);
    b.entry(33550, DOUBLE, 0xFFFF_FFFF, at);
    assert_eq!(error_of(b.finish(0)), TiffError::IntegrityError);
    let mut b = basic(false, 1);
    b.entry(34737, 2, 5, 1_000_000);
    assert_eq!(error_of(b.finish(0)), TiffError::IntegrityError);
}

#[test]
fn unsupported_vector_type_is_refused() {
    let mut b = basic(false, 1);
    let at = b.doubles(&TRANSFORM);
    b.entry(34264, 5, 16, at);
    assert_eq!(error_of(b.finish(0)), TiffError::InvalidDataType);
    let mut b = basic(true, 1);
    b.entry(279, 1, 1, 8);
    assert_eq!(error_of(b.finish(0)), TiffError::InvalidDataType);
}

#[test]
fn strip_tables_are_cut_down_from_floating_point() {
    for big in [false, true] {
        let mut b = Builder::new(big);
        let strip = b.shorts(&[10, 20, 30, 40, 50, 60]);
        let offsets = b.doubles(&[strip as f64 + 0.75]);
        let counts = b.singles(&[12.5]);
        let at = b.doubles(&TRANSFORM);
        b.entry(256, LONG, 1, 3);
        b.entry(257, LONG, 1, 2);
        b.entry(258, LONG, 1, 16);
        b.entry(273, DOUBLE, 1, offsets);
        b.entry(279, FLOAT, 1, counts);
        b.entry(339, LONG, 1, 1);
        b.entry(34264, DOUBLE, 16, at);
        let (mut reader, mut dataset) = open(b.finish(0)).unwrap();
        assert_eq!(dataset.ifd().strip_offsets, vec![strip]);
        assert_eq!(dataset.ifd().strip_byte_counts, vec![12]);
        assert_eq!(dataset.load_data(&mut reader), Ok(()));
        assert_eq!(dataset.get(1, 2), Ok(TiffSample::U16(60)));
    }
}

#[test]
fn floating_point_without_a_whole_number_is_refused() {
    for bad in [f64::NAN, -1.0, 4294967296.0, f64::INFINITY, f64::NEG_INFINITY, -1.0e300] {
        let mut b = basic(false, 1);
        let at = b.doubles(&TRANSFORM);
        let offsets = b.doubles(&[8.0, bad]);
        b.entry(34264, DOUBLE, 16, at);
        b.entry(273, DOUBLE, 2, offsets);
        assert_eq!(error_of(b.finish(0)), TiffError::InvalidDataType, "{bad}");
    }
    let mut b = basic(true, 1);
    let at = b.doubles(&TRANSFORM);
    let counts = b.singles(&[f32::MAX]);
    b.entry(34264, DOUBLE, 16, at);
    b.entry(279, FLOAT, 1, counts);
    assert_eq!(error_of(b.finish(0)), TiffError::InvalidDataType);
    let mut b = basic(false, 1);
    let at = b.doubles(&TRANSFORM);
    let offsets = b.doubles(&[-0.5, 4294967295.5, 0.0]);
    b.entry(34264, DOUBLE, 16, at);
    b.entry(273, DOUBLE, 3, offsets);
    let (_, dataset) = open(b.finish(0)).unwrap();
    assert_eq!(dataset.ifd().strip_offsets, vec![0, u32::MAX, 0]);
}

#[test]
fn empty_vector_needs_no_type() {
    let mut b = basic(false, 1);
    let at = b.doubles(&TRANSFORM);
    b.entry(34264, DOUBLE, 16, at);
    b.entry(34736, 99, 0, 0xFFFF_FFFF);
    let (_, dataset) = open(b.finish(0)).unwrap();
    assert_eq!(dataset.ifd().geo_double_params_tag, Some(Vec::new()));
}

#[test]
fn doubles_are_widened_from_every_type() {
    for big in [false, true] {
        let mut b = basic(big, 1);
        let at = b.doubles(&TRANSFORM);
        let shorts = b.shorts(&[0, 1, 3, 65535]);
        let longs = b.longs(&[0, 2, 0x8000_0001, u32::MAX]);
        let singles = b.singles(&[0.0, 0.1, -7.5, 1.0e-40, f32::MAX, f32::INFINITY]);
        b.entry(34264, DOUBLE, 16, at);
        b.entry(33922, SHORT, 4, shorts);
        b.entry(33550, LONG, 4, longs);
        b.entry(34736, FLOAT, 6, singles);
        let (_, dataset) = open(b.finish(0)).unwrap();
        let bits = |v: &[f64]| Some(v.iter().map(|x| x.to_bits()).collect::<Vec<u64>>());
        assert_eq!(dataset.ifd().model_tie_points, bits(&[0.0, 1.0, 3.0, 65535.0]));
        assert_eq!(
            dataset.ifd().model_pixel_scale_tag,
            bits(&[0.0, 2.0, 2147483649.0, 4294967295.0])
        );
        assert_eq!(
            dataset.ifd().geo_double_params_tag,
            bits(&[
                0.0,
                0.1f32 as f64,
                -7.5,
                1.0e-40f32 as f64,
                f32::MAX as f64,
                f64::INFINITY
            ])
        );
    }
}

#[test]
fn projection_text_replaces_invalid_bytes() {
    let mut b = basic(false, 1);
    let at = b.doubles(&TRANSFORM);
    let text = b.text(b"WGS 84\xFF|");
    b.entry(34264, DOUBLE, 16, at);
    b.entry(34737, 2, 8, text);
    let (_, dataset) = open(b.finish(0)).unwrap();
    assert_eq!(dataset.ifd().projection, "WGS 84\u{FFFD}|");
}

#[test]
fn unknown_tags_are_recorded_and_skipped() {
    let mut b = basic(true, 1);
    let at = b.doubles(&TRANSFORM);
    b.entry(305, 2, 4, 0xFFFF_FFFF);
    b.entry(34264, DOUBLE, 16, at);
    b.entry(34735, SHORT, 4, 0xFFFF_FFFF);
    b.entry(65000, 77, 1, 0);
    let (_, dataset) = open(b.finish(0)).unwrap();
    assert_eq!(dataset.ifd().unknown_tags, vec![305, 65000]);
    assert_eq!(dataset.ifd().image_width, 3);
}

#[test]
fn inline_values_are_cut_to_the_field() {
    let mut b = basic(false, 1);
    b.entry(258, LONG, 1, 0x0012_0010);
    let at = b.doubles(&TRANSFORM);
    b.entry(34264, DOUBLE, 16, at);
    let (_, dataset) = open(b.finish(0)).unwrap();
    assert_eq!(dataset.ifd().bits_per_sample, 16);
}

#[test]
fn vector_reads_restore_the_cursor() {
    let mut b = Builder::new(false);
    let shorts = b.shorts(&[7, 8, 9]);
    let doubles = b.doubles(&[1.0, -2.0]);
    let mut reader = TiffReader::new(b.finish(0)).unwrap();
    reader.set_offset(5);
    let entry = IfdEntry { tag: 273, field_type: SHORT, count: 3, value_offset: shorts };
    assert_eq!(reader.read_vector(&entry), Ok(vec![7, 8, 9]));
    assert_eq!(reader.offset(), 5);
    let entry = IfdEntry { tag: 33922, field_type: DOUBLE, count: 2, value_offset: doubles };
    assert_eq!(reader.read_doubles(&entry), Ok(vec![1.0f64.to_bits(), (-2.0f64).to_bits()]));
    assert_eq!(reader.offset(), 5);
    let entry = IfdEntry { tag: 273, field_type: LONG, count: 300, value_offset: shorts };
    assert_eq!(reader.read_vector(&entry), Err(TiffError::IntegrityError));
    assert_eq!(reader.offset(), 5);
    let entry = IfdEntry { tag: 273, field_type: 6, count: 1, value_offset: shorts };
    assert_eq!(reader.read_vector(&entry), Err(TiffError::InvalidDataType));
    assert_eq!(reader.offset(), 5);
    assert!(matches!(reader.read_payload(&entry), Err(TiffError::InvalidDataType)));
    assert_eq!(reader.read_text(&IfdEntry { tag: 34737, field_type: 2, count: 2, value_offset: 0 }), Ok("II".to_string()));
}

#[test]
fn entry_is_twelve_bytes() {
    for big in [false, true] {
        let bytes = with_transform(big, 1);
        let first = if big {
            u32::from_be_bytes([bytes[4], bytes[5], bytes[6], bytes[7]])
        } else {
            u32::from_le_bytes([bytes[4], bytes[5], bytes[6], bytes[7]])
        };
        let mut reader = TiffReader::new(bytes).unwrap();
        reader.set_offset(first + 2);
        assert_eq!(
            reader.read_ifd_entry(),
            Ok(IfdEntry { tag: 256, field_type: LONG, count: 1, value_offset: 3 })
        );
        assert_eq!(reader.offset() as u32, first + 14);
        let mut ifd = TiffIfd::default();
        assert_eq!(reader.set_ifd_entry(&mut ifd), Ok(()));
        assert_eq!(ifd.image_length, 2);
        assert_eq!(reader.offset() as u32, first + 26);
        reader.set_offset(reader.len() as u32 - 11);
        assert_eq!(reader.read_ifd_entry(), Err(TiffError::IntegrityError));
        assert_eq!(reader.set_ifd_entry(&mut ifd), Err(TiffError::IntegrityError));
        assert_eq!(reader.offset(), reader.len() - 11);
    }
}

#[test]
fn payload_must_suit_the_tag() {
    let mut ifd = TiffIfd::default();
    let entry = IfdEntry { tag: 273, field_type: LONG, count: 1, value_offset: 0 };
    assert_eq!(ifd.apply(&entry, Payload::Text("x".to_string())), Err(TiffError::InvalidDataType));
    assert_eq!(ifd.apply(&entry, Payload::Integers(vec![4, 5])), Ok(()));
    assert_eq!(ifd.strip_offsets, vec![4, 5]);
    let entry = IfdEntry { tag: 34737, field_type: 2, count: 1, value_offset: 0 };
    assert_eq!(ifd.apply(&entry, Payload::Text("x".to_string())), Ok(()));
    assert_eq!(ifd.projection, "x");
    let entry = IfdEntry { tag: 33550, field_type: DOUBLE, count: 1, value_offset: 0 };
    assert_eq!(ifd.apply(&entry, Payload::Inline), Err(TiffError::InvalidDataType));
    assert_eq!(ifd.apply(&entry, Payload::Doubles(vec![1, 2])), Ok(()));
    assert_eq!(ifd.model_pixel_scale_tag, Some(vec![1, 2]));
}

#[test]
fn data_types_have_codes_and_widths() {
    assert_eq!(TiffDataType::try_from(3), Ok(TiffDataType::Short));
    assert_eq!(TiffDataType::try_from(4), Ok(TiffDataType::Long));
    assert_eq!(TiffDataType::try_from(11), Ok(TiffDataType::Float));
    assert_eq!(TiffDataType::try_from(12), Ok(TiffDataType::Double));
    assert_eq!(TiffDataType::try_from(0), Err(()));
    assert_eq!(TiffDataType::try_from(5), Err(()));
    for kind in [TiffDataType::Short, TiffDataType::Long, TiffDataType::Float, TiffDataType::Double] {
        assert_eq!(TiffDataType::try_from(kind.code()), Ok(kind));
    }
    assert_eq!(TiffDataType::Short.width(), 2);
    assert_eq!(TiffDataType::Long.width(), 4);
    assert_eq!(TiffDataType::Float.width(), 4);
    assert_eq!(TiffDataType::Double.width(), 8);
}

#[test]
fn storage_grows_by_reading() {
    let mut reader = TiffReader::new(vec![0x4D, 0x4D, 0x00, 0x2A, 0xFF, 0xFE, 0x01]).unwrap();
    assert!(TiffDataArray::for_format(0).is_none());
    assert!(TiffDataArray::for_format(4).is_none());
    let mut signed = TiffDataArray::for_format(2).unwrap();
    assert_eq!(signed.sample_kind(), SampleKind::Signed);
    assert_eq!(signed.sample_kind().width(), 2);
    assert_eq!(signed.len(), 0);
    reader.set_offset(2);
    assert_eq!(signed.push_reader(&mut reader), Ok(()));
    assert_eq!(signed.push_reader(&mut reader), Ok(()));
    assert_eq!(signed.push_reader(&mut reader), Err(TiffError::IntegrityError));
    assert_eq!(reader.offset(), 6);
    assert_eq!(signed.len(), 2);
    assert_eq!(signed.get(0), TiffSample::I16(42));
    assert_eq!(signed.get(1), TiffSample::I16(-2));
    let mut float = TiffDataArray::for_format(3).unwrap();
    assert_eq!(float.sample_kind().width(), 4);
    reader.set_offset(2);
    assert_eq!(float.push_reader(&mut reader), Ok(()));
    assert_eq!(float.get(0), TiffSample::F32(0x002A_FFFE));
    let mut unsigned = TiffDataArray::for_format(1).unwrap();
    reader.set_offset(4);
    assert_eq!(unsigned.push_reader(&mut reader), Ok(()));
    assert_eq!(unsigned.get(0), TiffSample::U16(0xFFFE));
}

#[test]
fn errors_describe_themselves() {
    assert_eq!(TiffError::InvalidTransformation.describe(), "Tiff error: Invalid transformation data");
    assert_eq!(TiffError::InvalidDataType.describe(), "Tiff error: Invalid data type");
    assert_eq!(TiffError::NoDataLoaded.describe(), "Tiff error: Tif data must be loaded");
    assert_eq!(
        TiffError::BadMagicNumber.describe(),
        "Bad magic number (expected 42 or 43 for Big Tiff)"
    );
    assert_eq!(TiffError::UndefinedSampleFormat.describe(), "Undefined sample format");
    assert_eq!(TiffError::UnsupportedBigVariant.describe(), "Big Tiff reader not implemented yet...");
    assert_eq!(TiffError::ChainedDirectoryUnsupported.describe(), "More than 1 IFD found in file!");
    assert_eq!(TiffError::BadByteOrderMarker.describe(), "First 2 bytes not recognized");
    assert_eq!(TiffError::IntegrityError.describe(), "Tiff error: Truncated or inconsistent data");
}

#[test]
fn dataset_is_made_of_metadata() {
    let mut ifd = TiffIfd::default();
    assert!(matches!(ifd.generate_coordinates(), Err(TiffError::InvalidTransformation)));
    ifd.image_width = 4;
    ifd.image_length = 5;
    ifd.model_transformation_tag = Some(TRANSFORM.iter().map(|v| v.to_bits()).collect());
    let grid = ifd.generate_coordinates().unwrap();
    assert_eq!((grid.nx, grid.ny), (4, 5));
    let dataset = TiffDataset::from_ifd(ifd).unwrap();
    assert_eq!(dataset.grid(), grid);
    assert!(!dataset.is_loaded());
    let mut short = TiffIfd::default();
    short.image_width = 4;
    short.image_length = 5;
    short.model_transformation_tag = Some(vec![0; 15]);
    assert!(matches!(TiffDataset::from_ifd(short), Err(TiffError::InvalidTransformation)));
}
