//! Height maps read out of pixel buffers.
//!
//! The buffer is an `image::ImageBuffer` of RGBA pixels with 8-bit channels.
//! A texel of the height map is either one such pixel, whose red channel is
//! the height, or, for textures of four 32-bit float channels, four pixels in
//! a row, the first of which holds the bytes of the red channel.

use crate::asset_loader::HeightMapLoaderError;
use crate::mesh_builder::lemma_grid_vertex;
use crate::mesh_builder::lemma_level_error;
use crate::mesh_builder::level_of;
use crate::mesh_builder::GridError;
use crate::mesh_builder::GridSpec;
use crate::mesh_builder::Height;
use crate::mesh_builder::Ratio;
use crate::HeightMap;
use vstd::arithmetic::div_mod::lemma_div_multiples_vanish;
use vstd::arithmetic::div_mod::lemma_fundamental_div_mod_converse;
use vstd::prelude::*;

verus! {

/// `bevy_image::Image`, carried through unopened.
#[verifier::external_type_specification]
#[verifier::external_body]
pub struct ExImage(bevy_image::Image);

/// An `image::ImageBuffer` of RGBA pixels with 8-bit channels over a byte
/// vector. Verus sees nothing of its inside; what it holds is named by
/// [`buffer_width`], [`buffer_height`] and [`buffer_bytes`].
#[verifier::external_body]
pub struct PixelBuffer {
    inner: image::ImageBuffer<image::Rgba<u8>, Vec<u8>>,
}

/// The number of pixels in a row of the buffer.
pub uninterp spec fn buffer_width(buffer: PixelBuffer) -> u32;

/// The number of rows of the buffer.
pub uninterp spec fn buffer_height(buffer: PixelBuffer) -> u32;

/// The bytes of the buffer: row after row from the top, pixel after pixel
/// from the left, four channels to the pixel.
pub uninterp spec fn buffer_bytes(buffer: PixelBuffer) -> Seq<u8>;

/// The bytes hold every pixel of the buffer.
pub open spec fn buffer_fits(buffer: PixelBuffer) -> bool {
    4 * (buffer_width(buffer) * buffer_height(buffer)) <= buffer_bytes(buffer).len()
}

/// `bytemuck::cast_slice` from bytes to bytes, copied into a vector. Between
/// equal types the cast cannot fail and changes nothing.
#[verifier::external_body]
fn cast_bytes(bytes: &[u8]) -> (copy: Vec<u8>)
    ensures
        copy@ == bytes@,
{
    bytemuck::cast_slice::<u8, u8>(bytes).to_owned()
}

/// `ImageBuffer::from_raw`: the buffer over `data` with the given
/// dimensions, if `data` holds four bytes for each of its pixels. The call
/// multiplies four by the width and then by the height in `usize` and gives
/// nothing where either product leaves it; the second is bounded by the
/// length of the data, the first need not be where the height is zero. The
/// data are kept as they are, also where there are more of them than needed.
#[verifier::external_body]
fn buffer_from_raw(width: u32, height: u32, data: Vec<u8>) -> (made: Option<PixelBuffer>)
    ensures
        made is Some <==> (4 * width <= usize::MAX && 4 * (width * height) <= data@.len()),
        made matches Some(buffer) ==> {
            &&& buffer_width(buffer) == width
            &&& buffer_height(buffer) == height
            &&& buffer_bytes(buffer) == data@
        },
{
    match image::ImageBuffer::from_raw(width, height, data) {
        Some(inner) => Some(PixelBuffer { inner }),
        None => None,
    }
}

/// `ImageBuffer::dimensions`: width and height.
#[verifier::external_body]
fn buffer_dimensions(buffer: &PixelBuffer) -> (size: (u32, u32))
    ensures
        size.0 == buffer_width(*buffer),
        size.1 == buffer_height(*buffer),
{
    buffer.inner.dimensions()
}

/// `ImageBuffer::get_pixel`: the four channels of the pixel in column `x` of
/// row `y`, which are the four bytes from `4 * (y * width + x)` on. Outside
/// the dimensions the call panics.
#[verifier::external_body]
fn buffer_get_pixel(buffer: &PixelBuffer, x: u32, y: u32) -> (pixel: [u8; 4])
    requires
        x < buffer_width(*buffer),
        y < buffer_height(*buffer),
    ensures
        forall|k: int|
            0 <= k < 4 ==> (#[trigger] pixel@[k]) == buffer_bytes(*buffer)[4 * (y * buffer_width(
                *buffer,
            ) + x) + k],
{
    buffer.inner.get_pixel(x, y).0
}

/// What the conversion of an image into a dynamic image comes to.
#[derive(Clone, Copy, Debug, PartialEq, Eq, Structural)]
pub enum Conversion {
    /// A dynamic image of RGBA pixels with 8-bit channels.
    Rgba8,
    /// A dynamic image of another kind.
    Other,
    /// No dynamic image.
    Failed,
}

/// What `Image::try_into_dynamic` comes to on the image.
pub uninterp spec fn conversion_of(image: bevy_image::Image) -> Conversion;

/// The width of the RGBA buffer that the conversion of the image gives,
/// where it gives one.
pub uninterp spec fn converted_width(image: bevy_image::Image) -> u32;

/// The height of the RGBA buffer that the conversion of the image gives,
/// where it gives one.
pub uninterp spec fn converted_height(image: bevy_image::Image) -> u32;

/// The bytes of the RGBA buffer that the conversion of the image gives,
/// where it gives one.
pub uninterp spec fn converted_bytes(image: bevy_image::Image) -> Seq<u8>;

/// The size of the RGBA buffer that the conversion of the image gives, where
/// it gives one.
pub open spec fn converted_size(image: bevy_image::Image) -> GridSpec {
    GridSpec { width: converted_width(image), height: converted_height(image) }
}

/// `Image::try_into_dynamic`, and of the dynamic image that it gives the
/// RGBA buffer with 8-bit channels, if it is one. The outcome depends on the
/// image alone and is named by [`conversion_of`], [`converted_width`],
/// [`converted_height`] and [`converted_bytes`]. A buffer that comes was
/// made by `ImageBuffer::from_raw`, so its bytes hold all its pixels.
#[verifier::external_body]
fn image_into_rgba8(image: bevy_image::Image) -> (converted: Result<
    Option<PixelBuffer>,
    bevy_image::IntoDynamicImageError,
>)
    ensures
        match converted {
            Ok(Some(buffer)) => {
                &&& conversion_of(image) == Conversion::Rgba8
                &&& buffer_width(buffer) == converted_width(image)
                &&& buffer_height(buffer) == converted_height(image)
                &&& buffer_bytes(buffer) == converted_bytes(image)
                &&& buffer_fits(buffer)
            },
            Ok(None) => conversion_of(image) == Conversion::Other,
            Err(_) => conversion_of(image) == Conversion::Failed,
        },
{
    match image.try_into_dynamic() {
        Ok(image::DynamicImage::ImageRgba8(inner)) => Ok(Some(PixelBuffer { inner })),
        Ok(_) => Ok(None),
        Err(error) => Err(error),
    }
}

impl PixelBuffer {
    /// The buffer of the given dimensions over `data`, or nothing if `data`
    /// are fewer than four bytes to the pixel, or four times the width is
    /// more than the machine can count.
    pub fn from_raw(width: u32, height: u32, data: Vec<u8>) -> (made: Option<PixelBuffer>)
        ensures
            made is Some <==> (4 * width <= usize::MAX && 4 * (width * height) <= data@.len()),
            made matches Some(buffer) ==> {
                &&& buffer_width(buffer) == width
                &&& buffer_height(buffer) == height
                &&& buffer_bytes(buffer) == data@
                &&& buffer_fits(buffer)
            },
    {
        buffer_from_raw(width, height, data)
    }
}

/// How a channel of a texel is stored.
#[derive(Clone, Copy, Debug, PartialEq, Eq, Structural)]
pub enum Subpixel {
    /// One byte; four bytes to the texel.
    U8,
    /// A 32-bit float; sixteen bytes to the texel.
    F32,
}

impl Subpixel {
    /// The number of 8-bit RGBA pixels that one texel takes.
    pub open spec fn pixels(self) -> int {
        match self {
            Subpixel::U8 => 1,
            Subpixel::F32 => 4,
        }
    }
}

/// Why bytes cannot be read as a height map.
#[derive(Clone, Copy, Debug, PartialEq, Eq, Structural)]
pub enum FromBytesError {
    /// The size is refused: a zero in it, or a row longer than a buffer's.
    Size(GridError),
    /// There are fewer bytes than the size asks for.
    Short,
}

/// What stands in the way of reading `len` bytes as a height map, if
/// anything does.
pub open spec fn from_bytes_error(format: Subpixel, size: GridSpec, len: int) -> Option<
    FromBytesError,
> {
    if size.width == 0 || size.height == 0 {
        Some(FromBytesError::Size(GridError::Empty))
    } else if format.pixels() * size.width > u32::MAX {
        Some(FromBytesError::Size(GridError::TooLarge))
    } else if 4 * (format.pixels() * size.width * size.height) > len {
        Some(FromBytesError::Short)
    } else {
        None
    }
}

/// The column or row of a texel under a fraction of the unit interval: the
/// fraction of the largest index, rounded down.
pub open spec fn texel_step(bound: int, at: Ratio) -> int {
    (bound * at.num) / (at.den as int)
}

/// The number of the texel of an image of `size` texels under the point
/// `(x - 1/2, y - 1/2)`, counted row after row from the top: rows grow
/// downwards in the image and upwards in the square.
pub open spec fn texel_of(size: GridSpec, x: Ratio, y: Ratio) -> int {
    let column = texel_step(size.width - 1, x);
    let row = (size.height - 1) - texel_step(size.height - 1, y);
    row * size.width + column
}

/// Byte number `k` of the image of 8-bit levels that holds a height field:
/// `heights` gives the field row by row from `y = 0`, the image starts with
/// the topmost row; red, green and blue hold the level and alpha is opaque.
pub open spec fn encoded_byte(size: GridSpec, heights: Seq<Ratio>, k: int) -> u8 {
    let texel = k / 4;
    let row = texel / (size.width as int);
    let column = texel % (size.width as int);
    if k % 4 == 3 {
        255
    } else {
        level_of(heights[(size.height - 1 - row) * size.width + column]) as u8
    }
}

/// The bytes of the image of 8-bit levels that holds a height field.
pub open spec fn encoded_bytes(size: GridSpec, heights: Seq<Ratio>) -> Seq<u8> {
    Seq::new((4 * (size.width * size.height)) as nat, |k: int| encoded_byte(size, heights, k))
}

/// A height map over a pixel buffer.
pub struct ImageBufferHeightMap {
    buffer: PixelBuffer,
    size: GridSpec,
    format: Subpixel,
}

impl ImageBufferHeightMap {
    #[verifier::type_invariant]
    pub closed spec fn inv(self) -> bool {
        &&& self.size.width >= 1
        &&& self.size.height >= 1
        &&& buffer_width(self.buffer) == self.format.pixels() * self.size.width
        &&& buffer_height(self.buffer) == self.size.height
        &&& buffer_fits(self.buffer)
    }

    /// The number of texels along each axis.
    pub closed spec fn size(self) -> GridSpec {
        self.size
    }

    /// How the channels are stored.
    pub closed spec fn format(self) -> Subpixel {
        self.format
    }

    /// The bytes: row after row from the top, texel after texel from the
    /// left, the red channel first in each texel.
    pub closed spec fn bytes(self) -> Seq<u8> {
        buffer_bytes(self.buffer)
    }

    /// The number of the texel under the point `(x - 1/2, y - 1/2)`, counted
    /// row after row from the top: rows grow downwards in the image and
    /// upwards in the square.
    pub open spec fn texel(self, x: Ratio, y: Ratio) -> int {
        texel_of(self.size(), x, y)
    }

    /// The height under the point `(x - 1/2, y - 1/2)`: the red channel of
    /// the texel there.
    pub open spec fn height_at(self, x: Ratio, y: Ratio) -> Height {
        let t = self.texel(x, y);
        match self.format() {
            Subpixel::U8 => Height::Level(self.bytes()[4 * t]),
            Subpixel::F32 => Height::Raw(
                self.bytes()[16 * t],
                self.bytes()[16 * t + 1],
                self.bytes()[16 * t + 2],
                self.bytes()[16 * t + 3],
            ),
        }
    }

    /// Reads `buffer` as a height map of `size` texels in the given format.
    pub fn from_bytes(format: Subpixel, size: GridSpec, buffer: &[u8]) -> (made: Result<
        Self,
        FromBytesError,
    >)
        ensures
            made is Ok <==> from_bytes_error(format, size, buffer@.len() as int) is None,
            made matches Err(e) ==> from_bytes_error(format, size, buffer@.len() as int) == Some(e),
            made matches Ok(map) ==> {
                &&& map.size() == size
                &&& map.format() == format
                &&& map.bytes() == buffer@
            },
    {
        if size.width == 0 || size.height == 0 {
            return Err(FromBytesError::Size(GridError::Empty));
        }
        let width: u32 = match format {
            Subpixel::U8 => size.width,
            Subpixel::F32 => {
                if size.width > u32::MAX / 4 {
                    return Err(FromBytesError::Size(GridError::TooLarge));
                }
                4 * size.width
            },
        };
        assert(width * size.height == format.pixels() * size.width * size.height)
            by (nonlinear_arith)
            requires
                width == format.pixels() * size.width,
        ;
        let data = cast_bytes(buffer);
        let len: usize = data.len();
        assert(4 * (width * size.height) <= len ==> 4 * width <= usize::MAX) by (nonlinear_arith)
            requires
                size.height >= 1,
        ;
        match buffer_from_raw(width, size.height, data) {
            Some(buffer) => Ok(ImageBufferHeightMap { buffer, size, format }),
            None => Err(FromBytesError::Short),
        }
    }

    /// Writes a height field into an image of 8-bit levels: the heights
    /// are given row by row from `y = 0`, each a fraction of the unit
    /// interval, and are rounded down to levels. Heights beyond those of the
    /// grid are left out.
    pub fn from_heights(size: GridSpec, heights: &[Ratio]) -> (made: Result<Self, FromBytesError>)
        requires
            forall|i: int|
                0 <= i < heights@.len() && i < size.width * size.height ==> (#[trigger] heights@[i]).wf(),
        ensures
            made is Ok <==> size.width >= 1 && size.height >= 1 && size.width * size.height
                <= heights@.len(),
            made matches Err(e) ==> e == if size.width == 0 || size.height == 0 {
                FromBytesError::Size(GridError::Empty)
            } else {
                FromBytesError::Short
            },
            made matches Ok(map) ==> {
                &&& map.size() == size
                &&& map.format() == Subpixel::U8
                &&& map.bytes() == encoded_bytes(size, heights@)
            },
    {
        let w: u32 = size.width;
        let h: u32 = size.height;
        if w == 0 || h == 0 {
            return Err(FromBytesError::Size(GridError::Empty));
        }
        assert(w * h <= 0xffff_ffff * 0xffff_ffff) by (nonlinear_arith)
            requires
                w <= 0xffff_ffff,
                h <= 0xffff_ffff,
        ;
        if w as u64 * h as u64 > heights.len() as u64 {
            return Err(FromBytesError::Short);
        }
        let mut bytes: Vec<u8> = Vec::new();
        let mut row: u32 = 0;
        while row < h
            invariant
                row <= h,
                heights@.len() <= usize::MAX,
                w == size.width,
                h == size.height,
                w >= 1,
                w * h <= heights@.len(),
                forall|i: int| 0 <= i < w * h ==> (#[trigger] heights@[i]).wf(),
                bytes@.len() == 4 * (row * w),
                forall|k: int|
                    0 <= k < bytes@.len() ==> #[trigger] bytes@[k] == encoded_byte(size, heights@, k),
            decreases h - row,
        {
            let y: u32 = h - 1 - row;
            let mut column: u32 = 0;
            while column < w
                invariant
                    column <= w,
                    row < h,
                    y == h - 1 - row,
                    heights@.len() <= usize::MAX,
                    w == size.width,
                    h == size.height,
                    w >= 1,
                    w * h <= heights@.len(),
                    forall|i: int| 0 <= i < w * h ==> (#[trigger] heights@[i]).wf(),
                    bytes@.len() == 4 * (row * w + column),
                    forall|k: int|
                        0 <= k < bytes@.len() ==> #[trigger] bytes@[k] == encoded_byte(
                            size,
                            heights@,
                            k,
                        ),
                decreases w - column,
            {
                proof {
                    lemma_row_start(column as int, y as int, w as int, h as int);
                    lemma_row_start(column as int, row as int, w as int, h as int);
                    lemma_fundamental_div_mod_converse(
                        row * w + column,
                        w as int,
                        row as int,
                        column as int,
                    );
                }
                let at: usize = y as usize * w as usize + column as usize;
                let level: u8 = heights[at].level();
                bytes.push(level);
                bytes.push(level);
                bytes.push(level);
                bytes.push(255);
                column = column + 1;
            }
            assert((row + 1) * w == row * w + w) by (nonlinear_arith);
            row = row + 1;
        }
        assert(h * w == w * h) by (nonlinear_arith);
        assert(bytes@ =~= encoded_bytes(size, heights@));
        let len: usize = bytes.len();
        assert(4 * w <= usize::MAX) by (nonlinear_arith)
            requires
                h >= 1,
                4 * (w * h) == len,
        ;
        match buffer_from_raw(w, h, bytes) {
            Some(buffer) => Ok(ImageBufferHeightMap { buffer, size, format: Subpixel::U8 }),
            None => Err(FromBytesError::Short),
        }
    }

    /// The height map of an image of 8-bit RGBA pixels: the map over the
    /// buffer that the conversion of the image gives, if it gives one with a
    /// texel in it. An image that has no form as a dynamic image fails with
    /// the reason, one of another kind is unsupported, and one without
    /// texels is an empty grid.
    pub fn try_from_image(image: bevy_image::Image) -> (made: Result<Self, HeightMapLoaderError>)
        ensures
            made is Ok <==> conversion_of(image) == Conversion::Rgba8 && converted_width(image) >= 1
                && converted_height(image) >= 1,
            made matches Ok(map) ==> {
                &&& map.size() == converted_size(image)
                &&& map.format() == Subpixel::U8
                &&& map.bytes() == converted_bytes(image)
            },
            made matches Err(e) ==> match conversion_of(image) {
                Conversion::Rgba8 => e == HeightMapLoaderError::Grid(GridError::Empty),
                Conversion::Other => e is UnsupportedImageType,
                Conversion::Failed => e is IntoDynamicImageError,
            },
    {
        Self::from_converted(image_into_rgba8(image))
    }

    /// The height map over what the conversion of an image gave: the buffer
    /// of 8-bit RGBA pixels, if the conversion gave one with a texel in it.
    /// A failed conversion is passed on, another kind of image is
    /// unsupported, and an image without texels is an empty grid.
    pub fn from_converted(
        converted: Result<Option<PixelBuffer>, bevy_image::IntoDynamicImageError>,
    ) -> (made: Result<Self, HeightMapLoaderError>)
        requires
            converted matches Ok(Some(buffer)) ==> buffer_fits(buffer),
        ensures
            match converted {
                Ok(Some(buffer)) => if buffer_width(buffer) == 0 || buffer_height(buffer) == 0 {
                    made == Err::<Self, HeightMapLoaderError>(
                        HeightMapLoaderError::Grid(GridError::Empty),
                    )
                } else {
                    &&& made matches Ok(map)
                    &&& map.size() == (GridSpec {
                        width: buffer_width(buffer),
                        height: buffer_height(buffer),
                    })
                    &&& map.format() == Subpixel::U8
                    &&& map.bytes() == buffer_bytes(buffer)
                },
                Ok(None) => made == Err::<Self, HeightMapLoaderError>(
                    HeightMapLoaderError::UnsupportedImageType,
                ),
                Err(error) => made == Err::<Self, HeightMapLoaderError>(
                    HeightMapLoaderError::IntoDynamicImageError(error),
                ),
            },
    {
        match converted {
            Ok(Some(buffer)) => {
                let (width, height) = buffer_dimensions(&buffer);
                if width == 0 || height == 0 {
                    Err(HeightMapLoaderError::Grid(GridError::Empty))
                } else {
                    Ok(
                        ImageBufferHeightMap {
                            buffer,
                            size: GridSpec { width, height },
                            format: Subpixel::U8,
                        },
                    )
                }
            },
            Ok(None) => Err(HeightMapLoaderError::UnsupportedImageType),
            Err(error) => Err(HeightMapLoaderError::IntoDynamicImageError(error)),
        }
    }

    /// The number of texels along each axis.
    pub fn dimensions(&self) -> (size: GridSpec)
        ensures
            size == self.size(),
            size.width >= 1,
            size.height >= 1,
    {
        proof {
            use_type_invariant(self);
        }
        self.size
    }

    /// How the channels are stored.
    pub fn subpixel(&self) -> (format: Subpixel)
        ensures
            format == self.format(),
    {
        self.format
    }
}

/// A fraction of the unit interval of an index bound is within the bound.
proof fn lemma_texel_step_bound(bound: int, at: Ratio)
    by (nonlinear_arith)
    requires
        0 <= bound,
        at.wf(),
    ensures
        0 <= texel_step(bound, at) <= bound,
        0 <= bound * at.num <= bound * at.den,
{
}

impl HeightMap for ImageBufferHeightMap {
    open spec fn accepts(&self, x: Ratio, y: Ratio) -> bool {
        x.wf() && y.wf()
    }

    open spec fn yields(&self, x: Ratio, y: Ratio, z: Height) -> bool {
        z == self.height_at(x, y)
    }

    fn h(&self, x: Ratio, y: Ratio) -> (z: Height) {
        proof {
            use_type_invariant(self);
        }
        let bound_x: u32 = self.size.width - 1;
        let bound_y: u32 = self.size.height - 1;
        proof {
            lemma_texel_step_bound(bound_x as int, x);
            lemma_texel_step_bound(bound_y as int, y);
            assert(bound_x * x.den <= 0xffff_ffff * 0xffff_ffff) by (nonlinear_arith)
                requires
                    bound_x <= 0xffff_ffff,
                    x.den <= 0xffff_ffff,
            ;
            assert(bound_y * y.den <= 0xffff_ffff * 0xffff_ffff) by (nonlinear_arith)
                requires
                    bound_y <= 0xffff_ffff,
                    y.den <= 0xffff_ffff,
            ;
        }
        let column: u32 = (bound_x as u64 * x.num as u64 / x.den as u64) as u32;
        let row: u32 = bound_y - (bound_y as u64 * y.num as u64 / y.den as u64) as u32;
        let ghost t = self.texel(x, y);
        assert(t == row * self.size.width + column);
        match self.format {
            Subpixel::U8 => {
                let pixel = buffer_get_pixel(&self.buffer, column, row);
                assert(pixel@[0] == self.bytes()[4 * t]);
                Height::Level(pixel[0])
            },
            Subpixel::F32 => {
                let pixel = buffer_get_pixel(&self.buffer, 4 * column, row);
                assert(4 * (row * (4 * self.size.width) + 4 * column) == 16 * t)
                    by (nonlinear_arith)
                    requires
                        t == row * self.size.width + column,
                ;
                assert(pixel@[0] == self.bytes()[16 * t]);
                assert(pixel@[1] == self.bytes()[16 * t + 1]);
                assert(pixel@[2] == self.bytes()[16 * t + 2]);
                assert(pixel@[3] == self.bytes()[16 * t + 3]);
                Height::Raw(pixel[0], pixel[1], pixel[2], pixel[3])
            },
        }
    }
}

/// The number of column `x` in row `y` of `h` rows of `w` is below `w * h`.
proof fn lemma_row_start(x: int, y: int, w: int, h: int)
    by (nonlinear_arith)
    requires
        0 <= x < w,
        0 <= y < h,
    ensures
        0 <= y * w + x < w * h,
        0 <= y * w,
{
}

/// The whole of an index bound times a step over the bound is the step.
proof fn lemma_own_step(size_along: int, step: int)
    requires
        1 <= size_along <= u32::MAX,
        0 <= step < size_along,
    ensures
        texel_step(
            size_along - 1,
            (Ratio {
                num: step as u32,
                den: if size_along > 1 {
                    (size_along - 1) as u32
                } else {
                    1u32
                },
            }),
        ) == step as u32,
{
    let bound = size_along - 1;
    if size_along > 1 {
        lemma_div_multiples_vanish(step, bound);
        assert(texel_step(bound, (Ratio { num: step as u32, den: bound as u32 })) == (bound * step)
            / bound);
    } else {
        assert(bound * step == 0) by (nonlinear_arith)
            requires
                bound == 0,
        ;
    }
}

/// Read on the grid of its own size, an image is read texel by texel: the
/// vertex in column `x` of row `y` lies on the texel in column `x` of the
/// row that is `y` rows above the bottom one.
pub proof fn lemma_own_grid_reads_texels(size: GridSpec, i: int)
    requires
        size.error() is None,
        0 <= i < size.width * size.height,
    ensures
        texel_of(size, size.vertex(i).x, size.vertex(i).y) == (size.height - 1 - i / (
        size.width as int)) * size.width + i % (size.width as int),
{
    let w = size.width as int;
    let h = size.height as int;
    lemma_grid_vertex(size, i);
    lemma_own_step(w, i % w);
    lemma_own_step(h, i / w);
}

/// A height field written into an image of 8-bit levels and read back on
/// the grid of the image's size comes back, at every vertex, as the level of
/// the height there, and that level is within 1/255 of the height: with `q`
/// the level of `n / d`, `0 <= 255 n - q d < d`.
pub proof fn lemma_levels_round_trip(
    map: ImageBufferHeightMap,
    size: GridSpec,
    heights: Seq<Ratio>,
    i: int,
)
    requires
        size.error() is None,
        size.width * size.height <= heights.len(),
        forall|k: int| 0 <= k < size.width * size.height ==> (#[trigger] heights[k]).wf(),
        map.size() == size,
        map.format() == Subpixel::U8,
        map.bytes() == encoded_bytes(size, heights),
        0 <= i < size.width * size.height,
    ensures
        map.height_at(size.vertex(i).x, size.vertex(i).y) == Height::Level(
            level_of(heights[i]) as u8,
        ),
        0 <= 255 * heights[i].num - level_of(heights[i]) * heights[i].den < heights[i].den,
{
    let w = size.width as int;
    let h = size.height as int;
    let x = i % w;
    let y = i / w;
    lemma_grid_vertex(size, i);
    lemma_level_error(heights[i]);
    lemma_own_grid_reads_texels(size, i);
    let t = map.texel(size.vertex(i).x, size.vertex(i).y);
    assert(t == (h - 1 - y) * w + x);
    lemma_row_start(x, h - 1 - y, w, h);
    lemma_fundamental_div_mod_converse(t, w, h - 1 - y, x);
    assert(map.bytes()[4 * t] == encoded_byte(size, heights, 4 * t));
    assert((4 * t) / 4 == t && (4 * t) % 4 == 0);
    assert((h - 1 - (h - 1 - y)) * w + x == i);
}

/// Sampling is a function of the map and the point: two heights given for
/// one point of one map are the same.
pub proof fn lemma_sampling_is_deterministic(
    map: ImageBufferHeightMap,
    x: Ratio,
    y: Ratio,
    first: Height,
    second: Height,
)
    requires
        map.yields(x, y, first),
        map.yields(x, y, second),
    ensures
        first == second,
{
}

} // verus!
