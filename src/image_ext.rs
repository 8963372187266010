//! Image summaries: color spaces, tensor layouts, and PNG-encoded images.
use crate::error::Error;
use crate::protobuf::summary::Image;
use vstd::prelude::*;

verus! {

/// The color spaces that an image summary can declare.
#[derive(Clone, Copy, Debug, PartialEq, Eq, Structural, Hash)]
pub enum ColorSpace {
    Luma,
    LumaA,
    Rgb,
    Rgba,
    DigitalYuv,
    Bgra,
}

/// The number of channels of a color space.
pub open spec fn channels_of(c: ColorSpace) -> nat {
    match c {
        ColorSpace::Luma => 1,
        ColorSpace::LumaA => 2,
        ColorSpace::Rgb => 3,
        ColorSpace::Rgba => 4,
        ColorSpace::DigitalYuv => 3,
        ColorSpace::Bgra => 4,
    }
}

/// The value that an image summary stores for a color space.
pub open spec fn code_of(c: ColorSpace) -> i32 {
    match c {
        ColorSpace::Luma => 1,
        ColorSpace::LumaA => 2,
        ColorSpace::Rgb => 3,
        ColorSpace::Rgba => 4,
        ColorSpace::DigitalYuv => 5,
        ColorSpace::Bgra => 6,
    }
}

/// How the samples of an image's pixels are laid out: channels, and bits
/// per channel.
#[derive(Clone, Copy, Debug, PartialEq, Eq, Structural, Hash)]
pub enum PixelFormat {
    L8,
    La8,
    Rgb8,
    Rgba8,
    L16,
    La16,
    Rgb16,
    Rgba16,
    Bgr8,
    Bgra8,
    /// A layout that none of the above names.
    Other,
}

/// The color space of a pixel format, where an image summary has one.
pub open spec fn color_space_of(f: PixelFormat) -> Option<ColorSpace> {
    match f {
        PixelFormat::L8 | PixelFormat::L16 => Some(ColorSpace::Luma),
        PixelFormat::La8 | PixelFormat::La16 => Some(ColorSpace::LumaA),
        PixelFormat::Rgb8 | PixelFormat::Rgb16 => Some(ColorSpace::Rgb),
        PixelFormat::Rgba8 | PixelFormat::Rgba16 => Some(ColorSpace::Rgba),
        PixelFormat::Bgra8 => Some(ColorSpace::Bgra),
        PixelFormat::Bgr8 | PixelFormat::Other => None,
    }
}

impl ColorSpace {
    /// The number of channels of this color space.
    pub fn num_channels(&self) -> (r: usize)
        ensures
            r == channels_of(*self),
    {
        match self {
            ColorSpace::Luma => 1,
            ColorSpace::LumaA => 2,
            ColorSpace::Rgb => 3,
            ColorSpace::Rgba => 4,
            ColorSpace::DigitalYuv => 3,
            ColorSpace::Bgra => 4,
        }
    }

    /// The value that an image summary stores for this color space.
    pub fn code(&self) -> (r: i32)
        ensures
            r == code_of(*self),
    {
        match self {
            ColorSpace::Luma => 1,
            ColorSpace::LumaA => 2,
            ColorSpace::Rgb => 3,
            ColorSpace::Rgba => 4,
            ColorSpace::DigitalYuv => 5,
            ColorSpace::Bgra => 6,
        }
    }

    /// The color space of a pixel format: 8- and 16-bit formats alike map to
    /// the color space of their channels; one without a color space is a
    /// conversion error.
    pub fn from_pixel_format(format: PixelFormat) -> (r: Result<ColorSpace, Error>)
        ensures
            color_space_of(format) matches Some(c) ==> r == Ok::<ColorSpace, Error>(c),
            color_space_of(format) is None ==> r is Err && r->Err_0 is Conversion,
    {
        match format {
            PixelFormat::L8 | PixelFormat::L16 => Ok(ColorSpace::Luma),
            PixelFormat::La8 | PixelFormat::La16 => Ok(ColorSpace::LumaA),
            PixelFormat::Rgb8 | PixelFormat::Rgb16 => Ok(ColorSpace::Rgb),
            PixelFormat::Rgba8 | PixelFormat::Rgba16 => Ok(ColorSpace::Rgba),
            PixelFormat::Bgra8 => Ok(ColorSpace::Bgra),
            _ => Err(Error::conversion("color space is not supported")),
        }
    }

    /// The 8-bit pixel format in which a tensor of this color space is
    /// encoded, where there is one.
    pub fn tensor_pixel_format(&self) -> (r: Option<PixelFormat>)
        ensures
            r == match *self {
                ColorSpace::Luma => Some(PixelFormat::L8),
                ColorSpace::Rgb => Some(PixelFormat::Rgb8),
                ColorSpace::Rgba => Some(PixelFormat::Rgba8),
                _ => None::<PixelFormat>,
            },
    {
        match self {
            ColorSpace::Luma => Some(PixelFormat::L8),
            ColorSpace::Rgb => Some(PixelFormat::Rgb8),
            ColorSpace::Rgba => Some(PixelFormat::Rgba8),
            _ => None,
        }
    }
}

/// The order of a three-dimensional image tensor's dimensions.
#[derive(Clone, Copy, Debug, PartialEq, Eq, Structural, Hash)]
pub enum TchChannelOrder {
    /// Channels, then height, then width.
    CHW,
    /// Height, then width, then channels.
    HWC,
}

/// A tensor's sizes, reordered as channels, height and width.
pub open spec fn chw_of(order: TchChannelOrder, size: (i64, i64, i64)) -> (i64, i64, i64) {
    match order {
        TchChannelOrder::CHW => (size.0, size.1, size.2),
        TchChannelOrder::HWC => (size.2, size.0, size.1),
    }
}

impl TchChannelOrder {
    /// The tensor's sizes as channels, height and width.
    pub fn to_chw(&self, size: (i64, i64, i64)) -> (r: (i64, i64, i64))
        ensures
            r == chw_of(*self, size),
    {
        match self {
            TchChannelOrder::CHW => (size.0, size.1, size.2),
            TchChannelOrder::HWC => (size.2, size.0, size.1),
        }
    }
}

/// Checks that a tensor of the given sizes, in the given order, has as many
/// channels as the color space; a mismatch is a conversion error.
pub fn check_tensor_shape(color_space: ColorSpace, order: TchChannelOrder, size: (i64, i64, i64)) -> (r:
    Result<(), Error>)
    ensures
        r is Ok <==> chw_of(order, size).0 == channels_of(color_space),
        r is Err ==> r->Err_0 is Conversion,
{
    let (channels, _height, _width) = order.to_chw(size);
    if channels != color_space.num_channels() as i64 {
        return Err(Error::conversion("the tensor's channels do not match the color space"));
    }
    Ok(())
}

/// The bytes that one pixel of a format takes.
pub open spec fn bytes_per_pixel(f: PixelFormat) -> nat {
    match f {
        PixelFormat::L8 => 1,
        PixelFormat::La8 => 2,
        PixelFormat::Rgb8 => 3,
        PixelFormat::Rgba8 => 4,
        PixelFormat::L16 => 2,
        PixelFormat::La16 => 4,
        PixelFormat::Rgb16 => 6,
        PixelFormat::Rgba16 => 8,
        PixelFormat::Bgr8 => 3,
        PixelFormat::Bgra8 => 4,
        PixelFormat::Other => 0,
    }
}

/// Whether PNG can encode a pixel format: gray or color, with or without
/// alpha, at 8 or 16 bits per channel.
pub open spec fn png_encodable(f: PixelFormat) -> bool {
    match f {
        PixelFormat::Bgr8 | PixelFormat::Bgra8 | PixelFormat::Other => false,
        _ => true,
    }
}

/// Whether `len` samples make a PNG-encodable image of `width` by `height`
/// pixels in `format`: a non-empty image with exactly its pixels' bytes.
pub open spec fn png_accepts(len: nat, width: u32, height: u32, format: PixelFormat) -> bool {
    &&& png_encodable(format)
    &&& width > 0
    &&& height > 0
    &&& len == width as nat * height as nat * bytes_per_pixel(format)
}

impl PixelFormat {
    /// The bytes that one pixel takes.
    pub fn bytes_per_pixel(&self) -> (r: usize)
        ensures
            r == bytes_per_pixel(*self),
    {
        match self {
            PixelFormat::L8 => 1,
            PixelFormat::La8 => 2,
            PixelFormat::Rgb8 => 3,
            PixelFormat::Rgba8 => 4,
            PixelFormat::L16 => 2,
            PixelFormat::La16 => 4,
            PixelFormat::Rgb16 => 6,
            PixelFormat::Rgba16 => 8,
            PixelFormat::Bgr8 => 3,
            PixelFormat::Bgra8 => 4,
            PixelFormat::Other => 0,
        }
    }
}

/// The PNG encoding of samples laid out in row-major order, each pixel's
/// channels together.
pub uninterp spec fn png_of(samples: Seq<u8>, width: u32, height: u32, format: PixelFormat) -> Seq<
    u8,
>;

/// Relies on image's `PngEncoder::encode`, which writes the PNG encoding of
/// the samples; the bytes depend on the arguments alone. It refuses BGR
/// formats, and png's writer refuses a zero width or height and a sample
/// count other than the image's bytes. Writing into a `Vec` does not fail.
/// The writer multiplies the row length by the height in `usize`, hence the
/// bound.
#[verifier::external_body]
fn encode_png(samples: &[u8], width: u32, height: u32, format: PixelFormat) -> (r: Result<
    Vec<u8>,
    String,
>)
    requires
        format != PixelFormat::Other,
        width as nat * height as nat * bytes_per_pixel(format) <= usize::MAX,
    ensures
        r is Ok <==> png_accepts(samples@.len(), width, height, format),
        r matches Ok(bytes) ==> bytes@ == png_of(samples@, width, height, format),
{
    let color = match format {
        PixelFormat::L8 => image::ColorType::L8,
        PixelFormat::La8 => image::ColorType::La8,
        PixelFormat::Rgb8 => image::ColorType::Rgb8,
        PixelFormat::Rgba8 => image::ColorType::Rgba8,
        PixelFormat::L16 => image::ColorType::L16,
        PixelFormat::La16 => image::ColorType::La16,
        PixelFormat::Rgb16 => image::ColorType::Rgb16,
        PixelFormat::Rgba16 => image::ColorType::Rgba16,
        PixelFormat::Bgr8 => image::ColorType::Bgr8,
        PixelFormat::Bgra8 | PixelFormat::Other => image::ColorType::Bgra8,
    };
    let mut out: Vec<u8> = Vec::new();
    let encoded = image::png::PngEncoder::new(&mut out).encode(samples, width, height, color);
    encoded.map(|()| out).map_err(|e| format!("{:?}", e))
}

/// The image summary of a `width` by `height` image in `color_space`
/// whose PNG encoding is `encoded_image_string`.
pub fn summary_image(width: u32, height: u32, color_space: ColorSpace, encoded_image_string: Vec<
    u8,
>) -> (r: Image)
    ensures
        r.height == height as i32,
        r.width == width as i32,
        r.colorspace == code_of(color_space),
        r.encoded_image_string@ == encoded_image_string@,
{
    Image {
        height: height as i32,
        width: width as i32,
        colorspace: color_space.code(),
        encoded_image_string,
    }
}

/// An image summary of `width` by `height` pixels whose samples, in
/// row-major order with each pixel's channels together, are in `format`.
///
/// A format without a color space is a conversion error, and so are samples
/// that PNG cannot encode as such an image; otherwise the summary holds the
/// sizes, the color space's value and the PNG encoding of the samples.
pub fn image_from_samples(samples: &[u8], width: u32, height: u32, format: PixelFormat) -> (r: Result<
    Image,
    Error,
>)
    ensures
        r is Ok <==> color_space_of(format) is Some && png_accepts(
            samples@.len(),
            width,
            height,
            format,
        ),
        r is Err ==> r->Err_0 is Conversion,
        r matches Ok(img) ==> {
            &&& color_space_of(format) matches Some(c)
            &&& img.height == height as i32
            &&& img.width == width as i32
            &&& img.colorspace == code_of(c)
            &&& img.encoded_image_string@ == png_of(samples@, width, height, format)
        },
{
    let color_space = match ColorSpace::from_pixel_format(format) {
        Ok(c) => c,
        Err(e) => return Err(e),
    };
    let len = samples.len();
    let bpp = format.bytes_per_pixel();
    let pixels = match (width as usize).checked_mul(height as usize) {
        Some(p) => p,
        None => {
            proof {
                let w = width as nat;
                let h = height as nat;
                let k = bytes_per_pixel(format);
                assert(k >= 1);
                assert(w * h * k >= w * h) by (nonlinear_arith)
                    requires
                        k >= 1,
                ;
            }
            return Err(Error::conversion("the image is too large"));
        },
    };
    match pixels.checked_mul(bpp) {
        Some(_) => {},
        None => return Err(Error::conversion("the image is too large")),
    }
    let encoded_image_string = match encode_png(samples, width, height, format) {
        Ok(bytes) => bytes,
        Err(msg) => return Err(Error::Conversion(msg)),
    };
    Ok(summary_image(width, height, color_space, encoded_image_string))
}

} // verus!
