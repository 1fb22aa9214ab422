use vstd::prelude::*;

verus! {

/// Everything that can go wrong while decoding a raster file.
#[derive(Debug, Clone, Copy, PartialEq, Eq, Structural)]
pub enum TiffError {
    /// The first two bytes are neither `II` nor `MM`.
    BadByteOrderMarker,
    /// The magic number is neither 42 nor 43.
    BadMagicNumber,
    /// The magic number is 43: the 64-bit variant of the format.
    UnsupportedBigVariant,
    /// The offset of a next directory is not zero.
    ChainedDirectoryUnsupported,
    /// A vector-valued tag declares a field type that cannot be decoded.
    InvalidDataType,
    /// The georeferencing tags are missing, rotated or not anchored at the
    /// upper left corner.
    InvalidTransformation,
    /// The sample format is not one of unsigned, signed or floating point.
    UndefinedSampleFormat,
    /// A sample was requested before the pixel data was loaded.
    NoDataLoaded,
    /// A read runs past the end of the buffer, or the strips do not hold
    /// exactly one sample per pixel.
    IntegrityError,
}

impl TiffError {
    /// What `describe` returns, as a sequence of characters.
    pub open spec fn description(self) -> Seq<char> {
        match self {
            TiffError::BadByteOrderMarker => "First 2 bytes not recognized"@,
            TiffError::BadMagicNumber => "Bad magic number (expected 42 or 43 for Big Tiff)"@,
            TiffError::UnsupportedBigVariant => "Big Tiff reader not implemented yet..."@,
            TiffError::ChainedDirectoryUnsupported => "More than 1 IFD found in file!"@,
            TiffError::InvalidDataType => "Tiff error: Invalid data type"@,
            TiffError::InvalidTransformation => "Tiff error: Invalid transformation data"@,
            TiffError::UndefinedSampleFormat => "Undefined sample format"@,
            TiffError::NoDataLoaded => "Tiff error: Tif data must be loaded"@,
            TiffError::IntegrityError => "Tiff error: Truncated or inconsistent data"@,
        }
    }

    /// A one-line message for the error.
    pub fn describe(&self) -> (text: &'static str)
        ensures
            text@ == self.description(),
    {
        match self {
            TiffError::BadByteOrderMarker => "First 2 bytes not recognized",
            TiffError::BadMagicNumber => "Bad magic number (expected 42 or 43 for Big Tiff)",
            TiffError::UnsupportedBigVariant => "Big Tiff reader not implemented yet...",
            TiffError::ChainedDirectoryUnsupported => "More than 1 IFD found in file!",
            TiffError::InvalidDataType => "Tiff error: Invalid data type",
            TiffError::InvalidTransformation => "Tiff error: Invalid transformation data",
            TiffError::UndefinedSampleFormat => "Undefined sample format",
            TiffError::NoDataLoaded => "Tiff error: Tif data must be loaded",
            TiffError::IntegrityError => "Tiff error: Truncated or inconsistent data",
        }
    }
}

} // verus!
