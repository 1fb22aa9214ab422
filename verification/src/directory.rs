use vstd::prelude::*;
use crate::error::TiffError;

verus! {

/// The value types that a vector-valued tag can be decoded from.
#[derive(Debug, Clone, Copy, PartialEq, Eq, Structural)]
pub enum TiffDataType {
    Short,
    Long,
    Float,
    Double,
}

impl TiffDataType {
    /// The code that stands for the type in a directory entry.
    pub open spec fn spec_code(self) -> u16 {
        match self {
            TiffDataType::Short => 3,
            TiffDataType::Long => 4,
            TiffDataType::Float => 11,
            TiffDataType::Double => 12,
        }
    }

    /// The number of bytes that one value of the type takes.
    pub open spec fn spec_width(self) -> int {
        match self {
            TiffDataType::Short => 2,
            TiffDataType::Long => 4,
            TiffDataType::Float => 4,
            TiffDataType::Double => 8,
        }
    }

    /// The type that a code stands for, if any.
    pub open spec fn of_code(num: u16) -> Option<TiffDataType> {
        if num == 3 {
            Some(TiffDataType::Short)
        } else if num == 4 {
            Some(TiffDataType::Long)
        } else if num == 11 {
            Some(TiffDataType::Float)
        } else if num == 12 {
            Some(TiffDataType::Double)
        } else {
            None
        }
    }

    /// The code that stands for the type in a directory entry.
    pub fn code(&self) -> (num: u16)
        ensures
            num == self.spec_code(),
            TiffDataType::of_code(num) == Some(*self),
    {
        match self {
            TiffDataType::Short => 3,
            TiffDataType::Long => 4,
            TiffDataType::Float => 11,
            TiffDataType::Double => 12,
        }
    }

    /// The number of bytes that one value of the type takes.
    pub fn width(&self) -> (bytes: u64)
        ensures
            bytes == self.spec_width(),
    {
        match self {
            TiffDataType::Short => 2,
            TiffDataType::Long => 4,
            TiffDataType::Float => 4,
            TiffDataType::Double => 8,
        }
    }

    /// The type that a code stands for; an error for every other code.
    pub fn try_from(num: u16) -> (found: Result<TiffDataType, ()>)
        ensures
            match TiffDataType::of_code(num) {
                Some(kind) => found == Ok::<TiffDataType, ()>(kind),
                None => found is Err,
            },
    {
        if num == 4 {
            Ok(TiffDataType::Long)
        } else if num == 3 {
            Ok(TiffDataType::Short)
        } else if num == 11 {
            Ok(TiffDataType::Float)
        } else if num == 12 {
            Ok(TiffDataType::Double)
        } else {
            Err(())
        }
    }
}

/// One twelve-byte record of a directory.
#[derive(Debug, Clone, Copy, PartialEq, Eq, Structural)]
pub struct IfdEntry {
    pub tag: u16,
    pub field_type: u16,
    pub count: u32,
    pub value_offset: u32,
}

/// How the value of a tag is stored.
#[derive(Debug, Clone, Copy, PartialEq, Eq, Structural)]
pub enum TagClass {
    /// The value is the entry's own four-byte slot.
    Inline,
    /// A vector of whole numbers at the offset that the slot holds.
    Integers,
    /// A vector of double-precision numbers at that offset.
    Doubles,
    /// A span of text at that offset.
    Text,
    /// The tag is known and carries nothing that is kept.
    Skipped,
    /// The tag is not known.
    Unknown,
}

/// How the value of the tag `tag` is stored.
pub open spec fn class_of(tag: u16) -> TagClass {
    if tag == 256 || tag == 257 || tag == 258 || tag == 259 || tag == 262 || tag == 277 || tag
        == 278 || tag == 284 || tag == 339 {
        TagClass::Inline
    } else if tag == 273 || tag == 279 {
        TagClass::Integers
    } else if tag == 33922 || tag == 33550 || tag == 34264 || tag == 34736 {
        TagClass::Doubles
    } else if tag == 34737 {
        TagClass::Text
    } else if tag == 34735 {
        TagClass::Skipped
    } else {
        TagClass::Unknown
    }
}

/// How the value of the tag `tag` is stored.
pub fn tag_class(tag: u16) -> (class: TagClass)
    ensures
        class == class_of(tag),
{
    match tag {
        256 | 257 | 258 | 259 | 262 | 277 | 278 | 284 | 339 => TagClass::Inline,
        273 | 279 => TagClass::Integers,
        33922 | 33550 | 34264 | 34736 => TagClass::Doubles,
        34737 => TagClass::Text,
        34735 => TagClass::Skipped,
        _ => TagClass::Unknown,
    }
}

/// What was decoded for one entry besides its four fields.
#[derive(Debug)]
pub enum Payload {
    /// Nothing: the entry's own slot is the value, or the tag carries none.
    Inline,
    Integers(Vec<u32>),
    /// Double-precision numbers, each as its bit pattern.
    Doubles(Vec<u64>),
    Text(String),
}

/// A payload as mathematical sequences.
pub enum PayloadModel {
    Inline,
    Integers(Seq<u32>),
    Doubles(Seq<u64>),
    Text(Seq<char>),
}

impl View for Payload {
    type V = PayloadModel;

    open spec fn view(&self) -> PayloadModel {
        match self {
            Payload::Inline => PayloadModel::Inline,
            Payload::Integers(v) => PayloadModel::Integers(v@),
            Payload::Doubles(v) => PayloadModel::Doubles(v@),
            Payload::Text(s) => PayloadModel::Text(s@),
        }
    }
}

/// The metadata of one raster, as the directory gives it.
#[derive(Debug)]
pub struct TiffIfd {
    pub image_width: u32,
    pub image_length: u32,
    pub bits_per_sample: u16,
    pub compression: u16,
    pub photometric_interpretation: u16,
    pub samples_per_pixel: u16,
    pub strip_offsets: Vec<u32>,
    pub rows_per_strip: u32,
    pub planar_configuration: u16,
    pub sample_format: u16,
    pub strip_byte_counts: Vec<u32>,
    pub projection: String,
    /// Six doubles, as bit patterns.
    pub model_tie_points: Option<Vec<u64>>,
    /// The pixel's size along each axis, as bit patterns.
    pub model_pixel_scale_tag: Option<Vec<u64>>,
    /// A four by four matrix in row order, as bit patterns.
    pub model_transformation_tag: Option<Vec<u64>>,
    pub geo_double_params_tag: Option<Vec<u64>>,
    /// The tags that were met and not recognised, in the order of the
    /// directory.
    pub unknown_tags: Vec<u16>,
}

/// The metadata as mathematical values.
pub struct IfdModel {
    pub image_width: u32,
    pub image_length: u32,
    pub bits_per_sample: u16,
    pub compression: u16,
    pub photometric_interpretation: u16,
    pub samples_per_pixel: u16,
    pub strip_offsets: Seq<u32>,
    pub rows_per_strip: u32,
    pub planar_configuration: u16,
    pub sample_format: u16,
    pub strip_byte_counts: Seq<u32>,
    pub projection: Seq<char>,
    pub model_tie_points: Option<Seq<u64>>,
    pub model_pixel_scale_tag: Option<Seq<u64>>,
    pub model_transformation_tag: Option<Seq<u64>>,
    pub geo_double_params_tag: Option<Seq<u64>>,
    pub unknown_tags: Seq<u16>,
}

/// The sequence that an optional vector holds.
pub open spec fn optional_view(v: Option<Vec<u64>>) -> Option<Seq<u64>> {
    match v {
        Some(items) => Some(items@),
        None => None,
    }
}

impl IfdModel {
    /// The metadata before any entry was read.
    pub open spec fn empty() -> IfdModel {
        IfdModel {
            image_width: 0,
            image_length: 0,
            bits_per_sample: 0,
            compression: 0,
            photometric_interpretation: 0,
            samples_per_pixel: 0,
            strip_offsets: Seq::empty(),
            rows_per_strip: 0,
            planar_configuration: 0,
            sample_format: 0,
            strip_byte_counts: Seq::empty(),
            projection: Seq::empty(),
            model_tie_points: None,
            model_pixel_scale_tag: None,
            model_transformation_tag: None,
            geo_double_params_tag: None,
            unknown_tags: Seq::empty(),
        }
    }

    /// The metadata after one entry with its payload. An inline value is
    /// the entry's slot, cut down to the width of the field. A payload of
    /// another kind than the tag asks for is an invalid data type, and so
    /// is a transformation of fewer than sixteen numbers an invalid
    /// transformation; one of more is cut down to sixteen.
    pub open spec fn apply(self, entry: IfdEntry, payload: PayloadModel) -> Result<
        IfdModel,
        TiffError,
    > {
        let narrow = (entry.value_offset % 0x1_0000) as u16;
        match class_of(entry.tag) {
            TagClass::Inline => Ok(
                if entry.tag == 256 {
                    IfdModel { image_width: entry.value_offset, ..self }
                } else if entry.tag == 257 {
                    IfdModel { image_length: entry.value_offset, ..self }
                } else if entry.tag == 258 {
                    IfdModel { bits_per_sample: narrow, ..self }
                } else if entry.tag == 259 {
                    IfdModel { compression: narrow, ..self }
                } else if entry.tag == 262 {
                    IfdModel { photometric_interpretation: narrow, ..self }
                } else if entry.tag == 277 {
                    IfdModel { samples_per_pixel: narrow, ..self }
                } else if entry.tag == 278 {
                    IfdModel { rows_per_strip: entry.value_offset, ..self }
                } else if entry.tag == 284 {
                    IfdModel { planar_configuration: narrow, ..self }
                } else {
                    IfdModel { sample_format: narrow, ..self }
                },
            ),
            TagClass::Integers => match payload {
                PayloadModel::Integers(items) => Ok(
                    if entry.tag == 273 {
                        IfdModel { strip_offsets: items, ..self }
                    } else {
                        IfdModel { strip_byte_counts: items, ..self }
                    },
                ),
                _ => Err(TiffError::InvalidDataType),
            },
            TagClass::Doubles => match payload {
                PayloadModel::Doubles(items) => if entry.tag == 33922 {
                    Ok(IfdModel { model_tie_points: Some(items), ..self })
                } else if entry.tag == 33550 {
                    Ok(IfdModel { model_pixel_scale_tag: Some(items), ..self })
                } else if entry.tag == 34736 {
                    Ok(IfdModel { geo_double_params_tag: Some(items), ..self })
                } else if items.len() >= 16 {
                    Ok(IfdModel { model_transformation_tag: Some(items.subrange(0, 16)), ..self })
                } else {
                    Err(TiffError::InvalidTransformation)
                },
                _ => Err(TiffError::InvalidDataType),
            },
            TagClass::Text => match payload {
                PayloadModel::Text(text) => Ok(IfdModel { projection: text, ..self }),
                _ => Err(TiffError::InvalidDataType),
            },
            TagClass::Skipped => Ok(self),
            TagClass::Unknown => Ok(
                IfdModel { unknown_tags: self.unknown_tags.push(entry.tag), ..self },
            ),
        }
    }
}

impl View for TiffIfd {
    type V = IfdModel;

    open spec fn view(&self) -> IfdModel {
        IfdModel {
            image_width: self.image_width,
            image_length: self.image_length,
            bits_per_sample: self.bits_per_sample,
            compression: self.compression,
            photometric_interpretation: self.photometric_interpretation,
            samples_per_pixel: self.samples_per_pixel,
            strip_offsets: self.strip_offsets@,
            rows_per_strip: self.rows_per_strip,
            planar_configuration: self.planar_configuration,
            sample_format: self.sample_format,
            strip_byte_counts: self.strip_byte_counts@,
            projection: self.projection@,
            model_tie_points: optional_view(self.model_tie_points),
            model_pixel_scale_tag: optional_view(self.model_pixel_scale_tag),
            model_transformation_tag: optional_view(self.model_transformation_tag),
            geo_double_params_tag: optional_view(self.geo_double_params_tag),
            unknown_tags: self.unknown_tags@,
        }
    }
}

impl Default for TiffIfd {
    fn default() -> (ifd: TiffIfd)
        ensures
            ifd@ == IfdModel::empty(),
    {
        TiffIfd {
            image_width: 0,
            image_length: 0,
            bits_per_sample: 0,
            compression: 0,
            photometric_interpretation: 0,
            samples_per_pixel: 0,
            strip_offsets: Vec::new(),
            rows_per_strip: 0,
            planar_configuration: 0,
            sample_format: 0,
            strip_byte_counts: Vec::new(),
            projection: String::new(),
            model_tie_points: None,
            model_pixel_scale_tag: None,
            model_transformation_tag: None,
            geo_double_params_tag: None,
            unknown_tags: Vec::new(),
        }
    }
}

impl TiffIfd {
    /// Takes one entry with its payload into the metadata. On an error the
    /// metadata stays as it was.
    pub fn apply(&mut self, entry: &IfdEntry, payload: Payload) -> (done: Result<(), TiffError>)
        ensures
            match old(self)@.apply(*entry, payload@) {
                Ok(next) => done is Ok && final(self)@ == next,
                Err(e) => done == Err::<(), TiffError>(e) && final(self)@ == old(self)@,
            },
    {
        let narrow: u16 = (entry.value_offset % 0x1_0000) as u16;
        match tag_class(entry.tag) {
            TagClass::Inline => {
                if entry.tag == 256 {
                    self.image_width = entry.value_offset;
                } else if entry.tag == 257 {
                    self.image_length = entry.value_offset;
                } else if entry.tag == 258 {
                    self.bits_per_sample = narrow;
                } else if entry.tag == 259 {
                    self.compression = narrow;
                } else if entry.tag == 262 {
                    self.photometric_interpretation = narrow;
                } else if entry.tag == 277 {
                    self.samples_per_pixel = narrow;
                } else if entry.tag == 278 {
                    self.rows_per_strip = entry.value_offset;
                } else if entry.tag == 284 {
                    self.planar_configuration = narrow;
                } else {
                    self.sample_format = narrow;
                }
                Ok(())
            },
            TagClass::Integers => match payload {
                Payload::Integers(items) => {
                    if entry.tag == 273 {
                        self.strip_offsets = items;
                    } else {
                        self.strip_byte_counts = items;
                    }
                    Ok(())
                },
                _ => Err(TiffError::InvalidDataType),
            },
            TagClass::Doubles => match payload {
                Payload::Doubles(items) => {
                    if entry.tag == 33922 {
                        self.model_tie_points = Some(items);
                        Ok(())
                    } else if entry.tag == 33550 {
                        self.model_pixel_scale_tag = Some(items);
                        Ok(())
                    } else if entry.tag == 34736 {
                        self.geo_double_params_tag = Some(items);
                        Ok(())
                    } else if items.len() >= 16 {
                        let mut items = items;
                        items.truncate(16);
                        self.model_transformation_tag = Some(items);
                        Ok(())
                    } else {
                        Err(TiffError::InvalidTransformation)
                    }
                },
                _ => Err(TiffError::InvalidDataType),
            },
            TagClass::Text => match payload {
                Payload::Text(text) => {
                    self.projection = text;
                    Ok(())
                },
                _ => Err(TiffError::InvalidDataType),
            },
            TagClass::Skipped => Ok(()),
            TagClass::Unknown => {
                self.unknown_tags.push(entry.tag);
                Ok(())
            },
        }
    }
}

} // verus!
