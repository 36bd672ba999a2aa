//! Textures: a native handle with the dimensions of the image behind it.

use vstd::prelude::*;
use crate::commands::Command;

verus! {

/// Rows of pixel data start at multiples of this many bytes.
pub const PIXEL_ALIGNMENT: usize = 1;

/// How the bytes of a decoded image make up its pixels.
#[derive(Clone, Copy, Debug, PartialEq, Eq)]
pub enum ColorType {
    Grayscale,
    Rgb,
    Indexed,
    GrayscaleAlpha,
    Rgba,
}

/// The pixel format handed to the graphics API.
#[derive(Clone, Copy, Debug, PartialEq, Eq)]
pub enum PixelFormat {
    Rgb,
    Rgba,
}

/// A decoded image: rows of pixels top to bottom, one byte a channel,
/// without padding between rows.
#[derive(Clone, Debug, PartialEq, Eq)]
pub struct Image {
    pub color_type: ColorType,
    pub width: u32,
    pub height: u32,
    /// Three bytes a palette entry, for indexed images.
    pub palette: Option<Vec<u8>>,
    pub pixels: Vec<u8>,
}

/// A decoded image as contracts see it.
pub struct ImageView {
    pub color_type: ColorType,
    pub width: u32,
    pub height: u32,
    pub palette: Option<Seq<u8>>,
    pub pixels: Seq<u8>,
}

impl View for Image {
    type V = ImageView;

    open spec fn view(&self) -> ImageView {
        ImageView {
            color_type: self.color_type,
            width: self.width,
            height: self.height,
            palette: match self.palette {
                Some(palette) => Some(palette@),
                None => None,
            },
            pixels: self.pixels@,
        }
    }
}

/// The error type of the PNG decoder.
#[verifier::external_type_specification]
#[verifier::external_body]
pub struct ExDecodingError(png::DecodingError);

/// The image that the PNG decoder makes of the bytes of a PNG file, if it
/// accepts them.
pub uninterp spec fn png_image(data: Seq<u8>) -> Option<ImageView>;

/// Decodes the first frame of the PNG file held in `data` with
/// `png::Decoder`, untransformed and under the decoder's default limits:
/// `read_info`, a buffer of `output_buffer_size` bytes, `next_frame`, and
/// from `info` the color type, the size and the palette. The contract
/// claims that the outcome depends on the bytes alone.
#[verifier::external_body]
pub(crate) fn decode_png(data: &Vec<u8>) -> (result: Result<Image, png::DecodingError>)
    ensures
        result is Ok <==> png_image(data@) is Some,
        result is Ok ==> result->Ok_0@ == png_image(data@)->Some_0,
{
    let mut reader = png::Decoder::new(data.as_slice()).read_info()?;
    let mut pixels = vec![0u8; reader.output_buffer_size()];
    reader.next_frame(&mut pixels)?;
    let info = reader.info();
    let color_type = match info.color_type {
        png::ColorType::Grayscale => ColorType::Grayscale,
        png::ColorType::Rgb => ColorType::Rgb,
        png::ColorType::Indexed => ColorType::Indexed,
        png::ColorType::GrayscaleAlpha => ColorType::GrayscaleAlpha,
        png::ColorType::Rgba => ColorType::Rgba,
    };
    let palette = info.palette.as_ref().map(|p| p.to_vec());
    Ok(Image { color_type, width: info.width, height: info.height, palette, pixels })
}

/// Pixel data in a form the graphics API takes.
#[derive(Clone, Debug, PartialEq, Eq)]
pub struct TextureData {
    pub width: u32,
    pub height: u32,
    pub bits_per_pixel: usize,
    pub bytes_per_line: usize,
    pub format: PixelFormat,
    pub pixels: Vec<u8>,
}

/// Bytes a pixel has in a decoded image.
pub open spec fn input_bytes(color_type: ColorType) -> int {
    match color_type {
        ColorType::Rgb => 3,
        ColorType::Rgba => 4,
        ColorType::Grayscale => 1,
        ColorType::GrayscaleAlpha => 2,
        ColorType::Indexed => 1,
    }
}

/// Bytes a pixel has once converted.
pub open spec fn output_bytes(color_type: ColorType) -> int {
    match color_type {
        ColorType::Rgb => 3,
        ColorType::Rgba => 4,
        ColorType::Grayscale => 3,
        ColorType::GrayscaleAlpha => 4,
        ColorType::Indexed => 3,
    }
}

/// The format in which pixels of a color type are uploaded.
pub open spec fn format_of(color_type: ColorType) -> PixelFormat {
    match color_type {
        ColorType::Rgb => PixelFormat::Rgb,
        ColorType::Rgba => PixelFormat::Rgba,
        ColorType::Grayscale => PixelFormat::Rgb,
        ColorType::GrayscaleAlpha => PixelFormat::Rgba,
        ColorType::Indexed => PixelFormat::Rgb,
    }
}

/// Channel `channel` of palette entry `index`; zero for an entry that the
/// palette does not hold whole.
pub open spec fn palette_byte(palette: Seq<u8>, index: u8, channel: int) -> u8 {
    if index * 3 + 2 < palette.len() {
        palette[index * 3 + channel]
    } else {
        0
    }
}

/// Byte `i` of the converted pixels of `image`: gray is spread over red,
/// green and blue, alpha is kept, palette indices are looked up, and
/// color pixels are taken as they are.
pub open spec fn converted_byte(image: ImageView, i: int) -> u8 {
    let pixel = i / output_bytes(image.color_type);
    let channel = i % output_bytes(image.color_type);
    match image.color_type {
        ColorType::Rgb => image.pixels[i],
        ColorType::Rgba => image.pixels[i],
        ColorType::Grayscale => image.pixels[pixel],
        ColorType::GrayscaleAlpha => if channel < 3 {
            image.pixels[2 * pixel]
        } else {
            image.pixels[2 * pixel + 1]
        },
        ColorType::Indexed => palette_byte(image.palette->Some_0, image.pixels[pixel], channel),
    }
}

/// The converted pixels of `image`.
pub open spec fn converted(image: ImageView) -> Seq<u8> {
    Seq::new(
        (image.width * image.height * output_bytes(image.color_type)) as nat,
        |i: int| converted_byte(image, i),
    )
}

/// Whether `image` can be converted: it holds all the pixels its size
/// asks for, it has a palette if it is indexed, and the converted pixels,
/// and one row of them with its alignment, fit in memory.
pub open spec fn convertible(image: ImageView) -> bool {
    &&& image.width * image.height * input_bytes(image.color_type) <= image.pixels.len()
    &&& image.width * image.height * output_bytes(image.color_type) <= usize::MAX
    &&& image.width * output_bytes(image.color_type) + PIXEL_ALIGNMENT <= usize::MAX
    &&& image.color_type is Indexed ==> image.palette is Some
}

/// The least multiple of `alignment` that is not below `sz`; `sz` itself
/// for an alignment below 2.
pub fn get_aligned_size(sz: usize, alignment: usize) -> (aligned: usize)
    requires
        sz + alignment <= usize::MAX,
    ensures
        alignment < 2 ==> aligned == sz,
        alignment >= 2 ==> aligned % alignment == 0 && sz <= aligned < sz + alignment,
{
    if alignment < 2 {
        return sz;
    }
    let remainder = sz % alignment;
    if remainder != 0 {
        let aligned = sz + alignment - remainder;
        assert(aligned % alignment == 0) by (nonlinear_arith)
            requires
                aligned == sz + alignment - remainder,
                remainder == sz % alignment,
                alignment >= 2,
        ;
        aligned
    } else {
        sz
    }
}

impl TextureData {
    /// Converts a decoded image to the pixel data that is uploaded.
    pub fn from_image(image: &Image) -> (result: Result<TextureData, String>)
        ensures
            result is Ok <==> convertible(image@),
            result is Ok ==> {
                let data = result->Ok_0;
                &&& data.width == image.width
                &&& data.height == image.height
                &&& data.bits_per_pixel == 8 * output_bytes(image.color_type)
                &&& data.bytes_per_line == image.width * output_bytes(image.color_type)
                &&& data.format == format_of(image.color_type)
                &&& data.pixels@ == converted(image@)
            },
            result is Err ==> result->Err_0@ == "failed to decode bitmap file"@,
    {
        let (input_size, output_size): (u64, u64) = match image.color_type {
            ColorType::Rgb => (3, 3),
            ColorType::Rgba => (4, 4),
            ColorType::Grayscale => (1, 3),
            ColorType::GrayscaleAlpha => (2, 4),
            ColorType::Indexed => (1, 3),
        };
        let format = match image.color_type {
            ColorType::Rgb => PixelFormat::Rgb,
            ColorType::Rgba => PixelFormat::Rgba,
            ColorType::Grayscale => PixelFormat::Rgb,
            ColorType::GrayscaleAlpha => PixelFormat::Rgba,
            ColorType::Indexed => PixelFormat::Rgb,
        };
        assert(image.width * image.height <= 0xffff_ffff * 0xffff_ffff) by (nonlinear_arith)
            requires
                image.width <= 0xffff_ffff,
                image.height <= 0xffff_ffff,
        ;
        assert(input_size == input_bytes(image.color_type));
        assert(output_size == output_bytes(image.color_type));
        let count: u64 = (image.width as u64) * (image.height as u64);
        let length: u64 = image.pixels.len() as u64;
        let limit: u64 = usize::MAX as u64;
        assert((count <= length / input_size) == (count * input_size <= length)) by (nonlinear_arith)
            requires
                1 <= input_size,
        ;
        assert((count <= limit / output_size) == (count * output_size <= limit)) by (nonlinear_arith)
            requires
                1 <= output_size,
        ;
        if count > length / input_size {
            return Err("failed to decode bitmap file".to_string());
        }
        if count > limit / output_size {
            return Err("failed to decode bitmap file".to_string());
        }
        if (image.width as u64) * output_size > limit - (PIXEL_ALIGNMENT as u64) {
            return Err("failed to decode bitmap file".to_string());
        }
        let count: usize = count as usize;
        let mut pixels: Vec<u8> = Vec::new();
        match image.color_type {
            ColorType::Rgb | ColorType::Rgba => {
                let total: usize = count * (output_size as usize);
                let mut i: usize = 0;
                while i < total
                    invariant
                        i <= total <= image.pixels@.len(),
                        image.color_type is Rgb || image.color_type is Rgba,
                        pixels@ == Seq::new(i as nat, |j: int| converted_byte(image@, j)),
                    decreases total - i,
                {
                    pixels.push(image.pixels[i]);
                    assert(pixels@ =~= Seq::new((i + 1) as nat, |j: int| converted_byte(image@, j)));
                    i += 1;
                }
            },
            ColorType::Grayscale => {
                let mut p: usize = 0;
                while p < count
                    invariant
                        p <= count <= image.pixels@.len(),
                        count * 3 <= usize::MAX,
                        image.color_type is Grayscale,
                        pixels@ == Seq::new((3 * p) as nat, |j: int| converted_byte(image@, j)),
                    decreases count - p,
                {
                    let luminance = image.pixels[p];
                    pixels.push(luminance);
                    pixels.push(luminance);
                    pixels.push(luminance);
                    assert(pixels@ =~= Seq::new(
                        (3 * (p + 1)) as nat,
                        |j: int| converted_byte(image@, j),
                    ));
                    p += 1;
                }
            },
            ColorType::GrayscaleAlpha => {
                let mut p: usize = 0;
                while p < count
                    invariant
                        p <= count,
                        count * 2 <= image.pixels@.len(),
                        count * 4 <= usize::MAX,
                        image.color_type is GrayscaleAlpha,
                        pixels@ == Seq::new((4 * p) as nat, |j: int| converted_byte(image@, j)),
                    decreases count - p,
                {
                    let luminance = image.pixels[2 * p];
                    let alpha = image.pixels[2 * p + 1];
                    pixels.push(luminance);
                    pixels.push(luminance);
                    pixels.push(luminance);
                    pixels.push(alpha);
                    assert(pixels@ =~= Seq::new(
                        (4 * (p + 1)) as nat,
                        |j: int| converted_byte(image@, j),
                    ));
                    p += 1;
                }
            },
            ColorType::Indexed => {
                let palette = match &image.palette {
                    Some(palette) => palette,
                    None => {
                        return Err("failed to decode bitmap file".to_string());
                    },
                };
                let palette_size = palette.len();
                let mut p: usize = 0;
                while p < count
                    invariant
                        p <= count <= image.pixels@.len(),
                        count * 3 <= usize::MAX,
                        image.color_type is Indexed,
                        image@.palette == Some(palette@),
                        palette_size == palette@.len(),
                        pixels@ == Seq::new((3 * p) as nat, |j: int| converted_byte(image@, j)),
                    decreases count - p,
                {
                    let ofs: usize = (image.pixels[p] as usize) * 3;
                    let (r, g, b): (u8, u8, u8) = if ofs + 2 < palette_size {
                        (palette[ofs], palette[ofs + 1], palette[ofs + 2])
                    } else {
                        (0, 0, 0)
                    };
                    pixels.push(r);
                    pixels.push(g);
                    pixels.push(b);
                    proof {
                        let index = image.pixels@[p as int];
                        assert(r == palette_byte(palette@, index, 0));
                        assert(g == palette_byte(palette@, index, 1));
                        assert(b == palette_byte(palette@, index, 2));
                        assert(converted_byte(image@, 3 * p) == r);
                        assert(converted_byte(image@, 3 * p + 1) == g);
                        assert(converted_byte(image@, 3 * p + 2) == b);
                    }
                    assert(pixels@ =~= Seq::new(
                        (3 * (p + 1)) as nat,
                        |j: int| converted_byte(image@, j),
                    ));
                    p += 1;
                }
            },
        }
        assert(pixels@ =~= converted(image@));
        let line: usize = (image.width as usize) * (output_size as usize);
        Ok(
            TextureData {
                width: image.width,
                height: image.height,
                bits_per_pixel: (output_size as usize) * 8,
                bytes_per_line: get_aligned_size(line, PIXEL_ALIGNMENT),
                format,
                pixels,
            },
        )
    }
}

/// The pixel data of the PNG file held in `data`: the file is decoded and
/// the image converted. A file that the decoder refuses and an image
/// that cannot be converted are both reported as a failure to decode.
pub fn decode(data: &Vec<u8>) -> (result: Result<TextureData, String>)
    ensures
        result is Ok <==> png_image(data@) is Some && convertible(png_image(data@)->Some_0),
        result is Ok ==> {
            let image = png_image(data@)->Some_0;
            let texture = result->Ok_0;
            &&& texture.width == image.width
            &&& texture.height == image.height
            &&& texture.bits_per_pixel == 8 * output_bytes(image.color_type)
            &&& texture.bytes_per_line == image.width * output_bytes(image.color_type)
            &&& texture.format == format_of(image.color_type)
            &&& texture.pixels@ == converted(image)
        },
        result is Err ==> result->Err_0@ == "failed to decode bitmap file"@,
{
    match decode_png(data) {
        Ok(image) => TextureData::from_image(&image),
        Err(_) => Err("failed to decode bitmap file".to_string()),
    }
}

/// A texture loaded into graphics memory.
#[derive(Debug)]
pub struct Texture {
    id: u32,
    width: u32,
    height: u32,
    bits_per_pixel: usize,
    bytes_per_line: usize,
    size: usize,
}

impl Texture {
    /// The native handle; 0 once released.
    pub closed spec fn handle(&self) -> u32 {
        self.id
    }

    /// Width and height in pixels.
    pub closed spec fn extent(&self) -> (u32, u32) {
        (self.width, self.height)
    }

    /// Bytes of pixel data behind the texture.
    pub closed spec fn size(&self) -> usize {
        self.size
    }

    /// The texture with native handle `id`, once the graphics API was
    /// handed `data`; `uploaded` is whether it took the pixels without error.
    pub fn new(id: u32, data: &TextureData, uploaded: bool) -> (result: Result<Texture, String>)
        ensures
            result is Ok <==> uploaded,
            result is Ok ==> {
                let texture = result->Ok_0;
                &&& texture.handle() == id
                &&& texture.extent() == (data.width, data.height)
                &&& texture.size() == data.pixels@.len()
            },
            result is Err ==> result->Err_0@ == "failed: TexImage2D"@,
    {
        if !uploaded {
            return Err("failed: TexImage2D".to_string());
        }
        Ok(
            Texture {
                id,
                width: data.width,
                height: data.height,
                bits_per_pixel: data.bits_per_pixel,
                bytes_per_line: data.bytes_per_line,
                size: data.pixels.len(),
            },
        )
    }

    pub fn id(&self) -> (id: u32)
        ensures
            id == self.handle(),
    {
        self.id
    }

    pub fn width(&self) -> (width: u32)
        ensures
            width == self.extent().0,
    {
        self.width
    }

    pub fn height(&self) -> (height: u32)
        ensures
            height == self.extent().1,
    {
        self.height
    }

    /// Binds the texture at texture unit `bind_location`.
    pub fn bind(&self, queue: &mut Vec<Command>, bind_location: u32)
        ensures
            final(queue)@ == old(queue)@.push(
                Command::BindTexture { id: self.handle(), unit: bind_location },
            ),
    {
        queue.push(Command::BindTexture { id: self.id, unit: bind_location });
    }

    pub fn unbind(&self, queue: &mut Vec<Command>)
        ensures
            final(queue)@ == old(queue)@.push(Command::UnbindTexture),
    {
        queue.push(Command::UnbindTexture);
    }

    /// Releases the native handle; a no-op on a texture already released.
    pub fn free(&mut self, queue: &mut Vec<Command>)
        ensures
            final(self).handle() == 0,
            old(self).handle() != 0 ==> final(queue)@ == old(queue)@.push(
                Command::DeleteTexture { id: old(self).handle() },
            ),
            old(self).handle() == 0 ==> final(queue)@ == old(queue)@,
    {
        if self.id != 0 {
            queue.push(Command::DeleteTexture { id: self.id });
            self.id = 0;
        }
    }
}

} // verus!
