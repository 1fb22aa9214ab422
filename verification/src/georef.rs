use vstd::prelude::*;
use crate::binary64::{exceeds_epsilon, is_above_epsilon, is_exactly_zero, is_zero};
use crate::directory::{IfdModel, TiffIfd};
use crate::error::TiffError;

verus! {

/// How the coordinates of an axis follow from an origin and a step.
#[derive(Debug, Clone, Copy, PartialEq, Eq, Structural)]
pub enum GridRule {
    /// From an affine transformation: `x[i] = x_origin + x_step * i` and
    /// `y[j] = y_origin + y_step * j`.
    Affine,
    /// From a tie point and a pixel scale: `x[0] = x_origin`,
    /// `x[i] = x[i - 1] + x_step`, `y[0] = y_origin`,
    /// `y[j] = y[j - 1] - y_step`.
    TiePoint,
}

/// The coordinates of the columns and rows of a raster, as the rule and
/// the four numbers that generate them. Every number is the bit pattern of
/// a double.
#[derive(Debug, Clone, Copy, PartialEq, Eq, Structural)]
pub struct GeoGrid {
    /// The number of columns, which is the number of x coordinates.
    pub nx: u32,
    /// The number of rows, which is the number of y coordinates.
    pub ny: u32,
    pub x_origin: u64,
    pub x_step: u64,
    pub y_origin: u64,
    pub y_step: u64,
    pub rule: GridRule,
}

/// The grid that the metadata places the raster on. A transformation
/// wins over a tie point with a pixel scale. The transformation may not
/// rotate: its two cross terms may not exceed the machine epsilon. The tie
/// point must be six numbers that anchor pixel (0, 0), and the scale must
/// hold a step for each axis. A raster without columns or rows, or without
/// any of these tags, has no grid.
pub open spec fn georeference(ifd: IfdModel) -> Result<GeoGrid, TiffError> {
    if ifd.image_width == 0 || ifd.image_length == 0 {
        Err(TiffError::InvalidTransformation)
    } else {
        match ifd.model_transformation_tag {
            Some(matrix) => if matrix.len() < 16 || exceeds_epsilon(matrix[1]) || exceeds_epsilon(
                matrix[4],
            ) {
                Err(TiffError::InvalidTransformation)
            } else {
                Ok(
                    GeoGrid {
                        nx: ifd.image_width,
                        ny: ifd.image_length,
                        x_origin: matrix[3],
                        x_step: matrix[0],
                        y_origin: matrix[7],
                        y_step: matrix[5],
                        rule: GridRule::Affine,
                    },
                )
            },
            None => match (ifd.model_tie_points, ifd.model_pixel_scale_tag) {
                (Some(tie), Some(scale)) => if tie.len() != 6 || scale.len() < 2
                    || !is_zero(tie[0]) || !is_zero(tie[1]) {
                    Err(TiffError::InvalidTransformation)
                } else {
                    Ok(
                        GeoGrid {
                            nx: ifd.image_width,
                            ny: ifd.image_length,
                            x_origin: tie[3],
                            x_step: scale[0],
                            y_origin: tie[4],
                            y_step: scale[1],
                            rule: GridRule::TiePoint,
                        },
                    )
                },
                _ => Err(TiffError::InvalidTransformation),
            },
        }
    }
}

/// A grid has exactly one coordinate for each column and for each row of
/// the raster, and at least one of each.
pub proof fn lemma_grid_matches_raster(ifd: IfdModel)
    requires
        georeference(ifd) is Ok,
    ensures
        georeference(ifd)->Ok_0.nx == ifd.image_width,
        georeference(ifd)->Ok_0.ny == ifd.image_length,
        ifd.image_width > 0,
        ifd.image_length > 0,
{
}

/// A transformation without rotation gives the affine rule, with the
/// origins and steps taken from its first two rows.
pub proof fn lemma_affine_grid(ifd: IfdModel, matrix: Seq<u64>)
    requires
        ifd.image_width > 0,
        ifd.image_length > 0,
        ifd.model_transformation_tag == Some(matrix),
        matrix.len() == 16,
        !exceeds_epsilon(matrix[1]),
        !exceeds_epsilon(matrix[4]),
    ensures
        georeference(ifd) == Ok::<GeoGrid, TiffError>(
            GeoGrid {
                nx: ifd.image_width,
                ny: ifd.image_length,
                x_origin: matrix[3],
                x_step: matrix[0],
                y_origin: matrix[7],
                y_step: matrix[5],
                rule: GridRule::Affine,
            },
        ),
{
}

/// Without a transformation, a tie point that anchors pixel (0, 0) gives
/// the tie-point rule: the axes start at the tie point's model coordinate
/// and advance by the pixel scale.
pub proof fn lemma_tie_point_grid(ifd: IfdModel, tie: Seq<u64>, scale: Seq<u64>)
    requires
        ifd.image_width > 0,
        ifd.image_length > 0,
        ifd.model_transformation_tag is None,
        ifd.model_tie_points == Some(tie),
        ifd.model_pixel_scale_tag == Some(scale),
        tie.len() == 6,
        scale.len() >= 2,
        is_zero(tie[0]),
        is_zero(tie[1]),
    ensures
        georeference(ifd) == Ok::<GeoGrid, TiffError>(
            GeoGrid {
                nx: ifd.image_width,
                ny: ifd.image_length,
                x_origin: tie[3],
                x_step: scale[0],
                y_origin: tie[4],
                y_step: scale[1],
                rule: GridRule::TiePoint,
            },
        ),
{
}

impl TiffIfd {
    /// Places the raster on its grid.
    pub fn generate_coordinates(&self) -> (made: Result<GeoGrid, TiffError>)
        ensures
            made == georeference(self@),
    {
        if self.image_width == 0 || self.image_length == 0 {
            return Err(TiffError::InvalidTransformation);
        }
        if let Some(matrix) = &self.model_transformation_tag {
            if matrix.len() < 16 || is_above_epsilon(matrix[1]) || is_above_epsilon(matrix[4]) {
                return Err(TiffError::InvalidTransformation);
            }
            return Ok(
                GeoGrid {
                    nx: self.image_width,
                    ny: self.image_length,
                    x_origin: matrix[3],
                    x_step: matrix[0],
                    y_origin: matrix[7],
                    y_step: matrix[5],
                    rule: GridRule::Affine,
                },
            );
        }
        match (&self.model_tie_points, &self.model_pixel_scale_tag) {
            (Some(tie), Some(scale)) => {
                if tie.len() != 6 || scale.len() < 2 {
                    return Err(TiffError::InvalidTransformation);
                }
                if !is_exactly_zero(tie[0]) || !is_exactly_zero(tie[1]) {
                    return Err(TiffError::InvalidTransformation);
                }
                Ok(
                    GeoGrid {
                        nx: self.image_width,
                        ny: self.image_length,
                        x_origin: tie[3],
                        x_step: scale[0],
                        y_origin: tie[4],
                        y_step: scale[1],
                        rule: GridRule::TiePoint,
                    },
                )
            },
            _ => Err(TiffError::InvalidTransformation),
        }
    }
}

} // verus!
