use vstd::prelude::*;
use image::{DynamicImage, ImageBuffer, ImageError, Luma};
use crate::error::TerrainError;

verus! {

/// `image::DynamicImage`, carried through as an opaque value.
#[verifier::external_type_specification]
#[verifier::external_body]
pub struct ExDynamicImage(DynamicImage);

/// `image::ImageError`, carried through as an opaque value.
#[verifier::external_type_specification]
#[verifier::external_body]
pub struct ExImageError(ImageError);

/// Holds an `image::ImageBuffer<Luma<u16>, Vec<u16>>`. Verus sees nothing
/// inside; what it holds is named by `grid_width`, `grid_height` and
/// `grid_samples`.
#[verifier::external_body]
pub struct Luma16Grid {
    buffer: ImageBuffer<Luma<u16>, Vec<u16>>,
}

/// What `ImageBuffer::width` returns for the held buffer.
pub uninterp spec fn grid_width(grid: Luma16Grid) -> nat;

/// What `ImageBuffer::height` returns for the held buffer.
pub uninterp spec fn grid_height(grid: Luma16Grid) -> nat;

/// The samples of the held buffer, row by row, as `ImageBuffer::as_raw`
/// lays them out.
pub uninterp spec fn grid_samples(grid: Luma16Grid) -> Seq<u16>;

impl View for Luma16Grid {
    type V = RasterView;

    /// The sides and samples of the held buffer.
    open spec fn view(&self) -> RasterView {
        RasterView {
            width: grid_width(*self),
            height: grid_height(*self),
            samples: grid_samples(*self),
        }
    }
}

/// What `DynamicImage::as_luma16` finds in an image: the sides and samples of
/// its buffer where the image is 16-bit luminance, nothing for any other kind
/// of image.
pub uninterp spec fn luma16_plane(decoded: DynamicImage) -> Option<RasterView>;

/// Calls `ImageBuffer::from_raw`. The buffer is accepted exactly when it holds
/// at least `width * height` samples; the grid then has these sides and these
/// samples.
#[verifier::external_body]
fn grid_from_raw(width: u32, height: u32, samples: Vec<u16>) -> (r: Option<Luma16Grid>)
    ensures
        r.is_some() <==> width * height <= samples@.len(),
        r matches Some(grid) ==> grid_width(grid) == width && grid_height(grid) == height
            && grid_samples(grid) == samples@,
{
    ImageBuffer::from_raw(width, height, samples).map(|buffer| Luma16Grid { buffer })
}

/// Calls `ImageBuffer::width`.
#[verifier::external_body]
fn grid_width_of(grid: &Luma16Grid) -> (w: u32)
    ensures
        w == grid_width(*grid),
{
    grid.buffer.width()
}

/// Calls `ImageBuffer::height`.
#[verifier::external_body]
fn grid_height_of(grid: &Luma16Grid) -> (h: u32)
    ensures
        h == grid_height(*grid),
{
    grid.buffer.height()
}

/// Calls `ImageBuffer::get_pixel`, which panics outside the grid. Inside it
/// returns the sample at row `y`, column `x` of the row-major samples.
#[verifier::external_body]
fn grid_sample(grid: &Luma16Grid, x: u32, y: u32) -> (v: u16)
    requires
        x < grid_width(*grid),
        y < grid_height(*grid),
    ensures
        v == grid_samples(*grid)[y * grid_width(*grid) + x],
{
    grid.buffer.get_pixel(x, y).0[0]
}

/// Calls `image::load_from_memory`. Nothing is claimed of the outcome.
#[verifier::external_body]
fn decode_image(bytes: &[u8]) -> (r: Result<DynamicImage, ImageError>) {
    image::load_from_memory(bytes)
}

/// Calls `DynamicImage::as_luma16` and copies the buffer out. What comes back
/// depends on the image alone: a grid with the sides and samples of the
/// image's buffer where the image is 16-bit luminance, nothing otherwise.
#[verifier::external_body]
fn luma16_grid(decoded: &DynamicImage) -> (r: Option<Luma16Grid>)
    ensures
        r matches Some(grid) ==> luma16_plane(*decoded) == Some(grid@),
        r is None ==> luma16_plane(*decoded) is None,
{
    decoded.as_luma16().map(|buffer| Luma16Grid { buffer: buffer.clone() })
}

/// Whether a raster may have these sides: both are at least one cell, and the
/// lattice of cell corners, one wider and one taller than the raster, can be
/// addressed by 32-bit indices.
pub open spec fn valid_dimensions(width: nat, height: nat) -> bool {
    &&& 1 <= width
    &&& 1 <= height
    &&& (width + 1) * (height + 1) <= u32::MAX
}

/// The mathematical content of a height raster: `width * height` elevation
/// samples in row-major order.
pub struct RasterView {
    pub width: nat,
    pub height: nat,
    pub samples: Seq<u16>,
}

impl RasterView {
    /// The raster's sides are valid.
    pub open spec fn wf(self) -> bool {
        valid_dimensions(self.width, self.height)
    }

    /// Whether `(x, y)` names a cell of the raster.
    pub open spec fn contains(self, x: int, y: int) -> bool {
        0 <= x < self.width && 0 <= y < self.height
    }

    /// The sample of cell `(x, y)`.
    pub open spec fn cell(self, x: int, y: int) -> u16
        recommends
            self.contains(x, y),
    {
        self.samples[y * self.width + x]
    }
}

/// What becomes of the decoder's outcome: a raster where the decoder gave an
/// image that is 16-bit luminance and whose sides are valid. A failure of the
/// decoder and an image of another kind are a `DecodeError`; sides that are
/// not valid are `InvalidDimensions`.
pub open spec fn raster_outcome(decoded: Result<DynamicImage, ImageError>) -> Result<
    RasterView,
    TerrainError,
> {
    match decoded {
        Err(_) => Err(TerrainError::DecodeError),
        Ok(image) => match luma16_plane(image) {
            None => Err(TerrainError::DecodeError),
            Some(raster) => if raster.wf() {
                Ok(raster)
            } else {
                Err(TerrainError::InvalidDimensions)
            },
        },
    }
}

/// A decoded elevation raster with at least one cell.
pub struct HeightRaster {
    grid: Luma16Grid,
}

impl View for HeightRaster {
    type V = RasterView;

    closed spec fn view(&self) -> RasterView {
        self.grid@
    }
}

impl HeightRaster {
    #[verifier::type_invariant]
    closed spec fn inv(&self) -> bool {
        self@.wf()
    }

    /// Whether `r` is what `outcome` asks for: a raster with this content, or
    /// this error.
    pub open spec fn is_outcome(
        r: Result<HeightRaster, TerrainError>,
        outcome: Result<RasterView, TerrainError>,
    ) -> bool {
        match outcome {
            Ok(raster) => r is Ok && r->Ok_0@ == raster,
            Err(e) => r == Err::<HeightRaster, TerrainError>(e),
        }
    }

    /// Accepts a grid exactly when its sides are valid.
    fn from_grid(grid: Luma16Grid) -> (r: Result<HeightRaster, TerrainError>)
        ensures
            grid@.wf() ==> r is Ok && r->Ok_0@ == grid@,
            !grid@.wf() ==> r == Err::<HeightRaster, TerrainError>(
                TerrainError::InvalidDimensions,
            ),
    {
        let width: u32 = grid_width_of(&grid);
        let height: u32 = grid_height_of(&grid);
        if width == 0 || height == 0 || width == u32::MAX || height == u32::MAX {
            assert(!valid_dimensions(width as nat, height as nat)) by (nonlinear_arith)
                requires
                    width == 0 || height == 0 || width == u32::MAX || height == u32::MAX,
            ;
            return Err(TerrainError::InvalidDimensions);
        }
        assert((width + 1) * (height + 1) <= u64::MAX) by (nonlinear_arith)
            requires
                width < u32::MAX,
                height < u32::MAX,
        ;
        let corners: u64 = (width as u64 + 1) * (height as u64 + 1);
        if corners > u32::MAX as u64 {
            return Err(TerrainError::InvalidDimensions);
        }
        Ok(HeightRaster { grid })
    }

    /// Builds a raster from `width * height` samples in row-major order.
    ///
    /// Fails with `InvalidDimensions` when a side is zero, when the lattice of
    /// corners would exceed 32-bit indices, or when the number of samples is
    /// not `width * height`.
    pub fn from_samples(width: u32, height: u32, samples: Vec<u16>) -> (r: Result<
        HeightRaster,
        TerrainError,
    >)
        ensures
            valid_dimensions(width as nat, height as nat) && samples@.len() == width * height
                ==> r is Ok && r->Ok_0@ == (RasterView {
                width: width as nat,
                height: height as nat,
                samples: samples@,
            }),
            !(valid_dimensions(width as nat, height as nat) && samples@.len() == width * height)
                ==> r == Err::<HeightRaster, TerrainError>(TerrainError::InvalidDimensions),
    {
        assert(width * height <= u64::MAX) by (nonlinear_arith);
        let cells: u64 = width as u64 * height as u64;
        if samples.len() as u64 != cells {
            return Err(TerrainError::InvalidDimensions);
        }
        match grid_from_raw(width, height, samples) {
            Some(grid) => Self::from_grid(grid),
            None => Err(TerrainError::InvalidDimensions),
        }
    }

    /// Turns the decoder's outcome into a raster.
    ///
    /// Fails with `DecodeError` when the decoder failed or its image is not
    /// 16-bit luminance, and with `InvalidDimensions` when the image's sides
    /// are not valid.
    pub fn from_decoded(decoded: Result<DynamicImage, ImageError>) -> (r: Result<
        HeightRaster,
        TerrainError,
    >)
        ensures
            Self::is_outcome(r, raster_outcome(decoded)),
    {
        match decoded {
            Err(_) => Err(TerrainError::DecodeError),
            Ok(image) => match luma16_grid(&image) {
                None => Err(TerrainError::DecodeError),
                Some(grid) => Self::from_grid(grid),
            },
        }
    }

    /// Decodes an image file held in memory.
    ///
    /// The bytes go to the decoder as they are, and the result is what
    /// `from_decoded` makes of the decoder's outcome: it fails with
    /// `DecodeError` when the bytes are not an image that the decoder accepts
    /// or the image is not 16-bit luminance, and with `InvalidDimensions` when
    /// the decoded raster's sides are not valid.
    pub fn decode(bytes: &[u8]) -> (r: Result<HeightRaster, TerrainError>)
        ensures
            exists|decoded: Result<DynamicImage, ImageError>|
                Self::is_outcome(r, #[trigger] raster_outcome(decoded)),
            r matches Ok(raster) ==> raster@.wf(),
    {
        let decoded = decode_image(bytes);
        let ghost outcome = raster_outcome(decoded);
        let r = Self::from_decoded(decoded);
        proof {
            assert(Self::is_outcome(r, outcome));
        }
        r
    }

    /// Number of cells per row.
    pub fn width(&self) -> (w: u32)
        ensures
            w == self@.width,
            self@.wf(),
    {
        proof {
            use_type_invariant(self);
        }
        grid_width_of(&self.grid)
    }

    /// Number of rows.
    pub fn height(&self) -> (h: u32)
        ensures
            h == self@.height,
            self@.wf(),
    {
        proof {
            use_type_invariant(self);
        }
        grid_height_of(&self.grid)
    }

    /// The sample of cell `(x, y)`, or `None` outside the raster.
    pub fn sample(&self, x: u32, y: u32) -> (r: Option<u16>)
        ensures
            r == if self@.contains(x as int, y as int) {
                Some(self@.cell(x as int, y as int))
            } else {
                None
            },
    {
        if x < grid_width_of(&self.grid) && y < grid_height_of(&self.grid) {
            Some(grid_sample(&self.grid, x, y))
        } else {
            None
        }
    }
}

} // verus!
