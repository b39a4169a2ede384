//! Decoded images at the clipboard's boundary, with PNG bytes as their wire
//! representation. Decoding, scaling and encoding are the `image` crate's.

use vstd::prelude::*;
use image::{ColorType, DynamicImage, ImageFormat};
use image::imageops::FilterType;
use crate::error::ClipboardError;

verus! {

#[verifier::external_type_specification]
#[verifier::external_body]
pub struct ExDynamicImage(DynamicImage);

#[verifier::external_type_specification]
#[verifier::external_body]
pub struct ExFilterType(FilterType);

#[verifier::external_type_specification]
#[verifier::external_body]
pub struct ExColorType(ColorType);

#[verifier::external_type_specification]
#[verifier::external_body]
pub struct ExImageFormat(ImageFormat);

/// The color layouts that encoding distinguishes.
#[derive(Clone, Copy, Debug, PartialEq, Eq, Structural)]
pub enum ColorKind {
    Rgb8,
    Rgba8,
    Other,
}

/// Relies on `image::load_from_memory`: decodes an image of a guessed
/// format. Format detection may be extended at run time, so nothing is
/// claimed of the outcome.
#[verifier::external_body]
fn decode(bytes: &[u8]) -> (r: Option<DynamicImage>) {
    image::load_from_memory(bytes).ok()
}

/// Relies on `DynamicImage::width`.
#[verifier::external_body]
fn width_of(image: &DynamicImage) -> (r: u32) {
    image.width()
}

/// Relies on `DynamicImage::height`.
#[verifier::external_body]
fn height_of(image: &DynamicImage) -> (r: u32) {
    image.height()
}

/// Relies on `DynamicImage::thumbnail`: scales down, keeping the aspect ratio.
#[verifier::external_body]
fn thumbnail_of(image: &DynamicImage, width: u32, height: u32) -> (r: DynamicImage) {
    image.thumbnail(width, height)
}

/// Relies on `DynamicImage::resize_exact`: scales to the given size.
#[verifier::external_body]
fn resized(image: &DynamicImage, width: u32, height: u32, filter: FilterType) -> (r: DynamicImage) {
    image.resize_exact(width, height, filter)
}

/// Relies on `Clone` of `DynamicImage`.
#[verifier::external_body]
fn copy_of(image: &DynamicImage) -> (r: DynamicImage) {
    image.clone()
}

/// Relies on `DynamicImage::color`, telling its layouts apart.
#[verifier::external_body]
fn color_kind(image: &DynamicImage) -> (r: ColorKind) {
    match image.color() {
        ColorType::Rgb8 => ColorKind::Rgb8,
        ColorType::Rgba8 => ColorKind::Rgba8,
        _ => ColorKind::Other,
    }
}

/// Relies on `ColorType`'s variants, telling them apart.
#[verifier::external_body]
fn kind_of_color(color: ColorType) -> (r: ColorKind) {
    match color {
        ColorType::Rgb8 => ColorKind::Rgb8,
        ColorType::Rgba8 => ColorKind::Rgba8,
        _ => ColorKind::Other,
    }
}

/// Relies on `DynamicImage::to_rgb8`: the pixels with 8-bit RGB channels.
#[verifier::external_body]
fn as_rgb8(image: &DynamicImage) -> (r: DynamicImage) {
    DynamicImage::ImageRgb8(image.to_rgb8())
}

/// Relies on `DynamicImage::to_rgba8`: the pixels with 8-bit RGBA channels.
#[verifier::external_body]
fn as_rgba8(image: &DynamicImage) -> (r: DynamicImage) {
    DynamicImage::ImageRgba8(image.to_rgba8())
}

/// Relies on `DynamicImage::write_to`: the image encoded in `format`, or
/// nothing when the encoder refuses it.
#[verifier::external_body]
fn encoded(image: &DynamicImage, format: ImageFormat) -> (r: Option<Vec<u8>>) {
    let mut bytes: Vec<u8> = Vec::new();
    image.write_to(&mut std::io::Cursor::new(&mut bytes), format).ok().map(|_| bytes)
}

/// Relies on the `ImageFormat::Png` variant.
#[verifier::external_body]
fn png_format() -> (r: ImageFormat) {
    ImageFormat::Png
}

/// Relies on the `ImageFormat::Jpeg` variant.
#[verifier::external_body]
fn jpeg_format() -> (r: ImageFormat) {
    ImageFormat::Jpeg
}

/// Relies on the `ColorType::Rgb8` variant.
#[verifier::external_body]
fn rgb8_color() -> (r: ColorType) {
    ColorType::Rgb8
}

/// Relies on the `ColorType::Rgba8` variant.
#[verifier::external_body]
fn rgba8_color() -> (r: ColorType) {
    ColorType::Rgba8
}

/// Encoded image bytes, in a format such as PNG or JPEG.
pub struct RustImageBuffer(Vec<u8>);

impl View for RustImageBuffer {
    type V = Seq<u8>;

    closed spec fn view(&self) -> Seq<u8> {
        self.0@
    }
}

impl RustImageBuffer {
    /// The encoded bytes.
    pub fn get_bytes(&self) -> (r: &[u8])
        ensures
            r@ == self@,
    {
        self.0.as_slice()
    }

    /// The encoded bytes, taken out of the buffer.
    pub fn into_inner(self) -> (r: Vec<u8>)
        ensures
            r@ == self@,
    {
        self.0
    }
}

/// An image, or the empty image, with its size.
pub struct RustImageData {
    width: u32,
    height: u32,
    data: Option<DynamicImage>,
}

impl RustImageData {
    /// Width and height.
    pub closed spec fn size(&self) -> (u32, u32) {
        (self.width, self.height)
    }

    /// Whether the value holds an image.
    pub closed spec fn holds_image(&self) -> bool {
        self.data is Some
    }
}

/// Operations on decoded images.
pub trait RustImage: Sized {
    /// The empty image.
    fn empty() -> Self;

    fn is_empty(&self) -> bool;

    /// Decodes an image from encoded bytes.
    fn from_bytes(bytes: &[u8]) -> Result<Self, ClipboardError>;

    fn from_dynamic_image(image: DynamicImage) -> Self;

    /// Width and height.
    fn get_size(&self) -> (u32, u32);

    /// Scales down to fit within `width` by `height`, keeping the aspect
    /// ratio.
    fn thumbnail(&self, width: u32, height: u32) -> Result<Self, ClipboardError>;

    /// Scales to `width` by `height`, not keeping the aspect ratio.
    fn resize(&self, width: u32, height: u32, filter: FilterType) -> Result<Self, ClipboardError>;

    /// Encodes in `format`, converting to `target_color_type` where the
    /// format asks for it.
    fn encode_image(&self, target_color_type: ColorType, format: ImageFormat) -> Result<
        RustImageBuffer,
        ClipboardError,
    >;

    /// Encodes as JPEG, with 8-bit RGB channels.
    fn to_jpeg(&self) -> Result<RustImageBuffer, ClipboardError>;

    /// Encodes as PNG, with 8-bit RGBA channels.
    fn to_png(&self) -> Result<RustImageBuffer, ClipboardError>;

    /// A copy of the decoded image.
    fn get_dynamic_image(&self) -> Result<DynamicImage, ClipboardError>;
}

impl RustImage for RustImageData {
    fn empty() -> (r: Self)
        ensures
            !r.holds_image(),
            r.size() == (0u32, 0u32),
    {
        RustImageData { width: 0, height: 0, data: None }
    }

    fn is_empty(&self) -> (r: bool)
        ensures
            r == !self.holds_image(),
    {
        self.data.is_none()
    }

    fn from_bytes(bytes: &[u8]) -> (r: Result<Self, ClipboardError>)
        ensures
            r matches Ok(img) ==> img.holds_image(),
            r is Err ==> r == Err::<Self, ClipboardError>(ClipboardError::ImageCodec),
    {
        match decode(bytes) {
            Some(image) => Ok(Self::from_dynamic_image(image)),
            None => Err(ClipboardError::ImageCodec),
        }
    }

    fn from_dynamic_image(image: DynamicImage) -> (r: Self)
        ensures
            r.holds_image(),
    {
        let width = width_of(&image);
        let height = height_of(&image);
        RustImageData { width, height, data: Some(image) }
    }

    fn get_size(&self) -> (r: (u32, u32))
        ensures
            r == self.size(),
    {
        (self.width, self.height)
    }

    fn thumbnail(&self, width: u32, height: u32) -> (r: Result<Self, ClipboardError>)
        ensures
            self.holds_image() ==> (r matches Ok(img) && img.holds_image()),
            !self.holds_image() ==> r matches Err(ClipboardError::EmptyImage),
    {
        match &self.data {
            Some(image) => Ok(Self::from_dynamic_image(thumbnail_of(image, width, height))),
            None => Err(ClipboardError::EmptyImage),
        }
    }

    fn resize(&self, width: u32, height: u32, filter: FilterType) -> (r: Result<Self, ClipboardError>)
        ensures
            self.holds_image() ==> (r matches Ok(img) && img.holds_image()),
            !self.holds_image() ==> r matches Err(ClipboardError::EmptyImage),
    {
        match &self.data {
            Some(image) => Ok(Self::from_dynamic_image(resized(image, width, height, filter))),
            None => Err(ClipboardError::EmptyImage),
        }
    }

    fn encode_image(&self, target_color_type: ColorType, format: ImageFormat) -> (r: Result<
        RustImageBuffer,
        ClipboardError,
    >)
        ensures
            !self.holds_image() ==> r matches Err(ClipboardError::EmptyImage),
            self.holds_image() ==> (r is Ok || r matches Err(ClipboardError::ImageCodec)),
    {
        let image = match &self.data {
            Some(image) => image,
            None => return Err(ClipboardError::EmptyImage),
        };
        let bytes = match (color_kind(image), kind_of_color(target_color_type)) {
            (ColorKind::Rgba8, ColorKind::Rgb8) => encoded(&as_rgb8(image), format),
            (_, ColorKind::Rgba8) => encoded(&as_rgba8(image), format),
            _ => encoded(image, format),
        };
        match bytes {
            Some(b) => Ok(RustImageBuffer(b)),
            None => Err(ClipboardError::ImageCodec),
        }
    }

    fn to_jpeg(&self) -> (r: Result<RustImageBuffer, ClipboardError>)
        ensures
            !self.holds_image() ==> r matches Err(ClipboardError::EmptyImage),
            self.holds_image() ==> (r is Ok || r matches Err(ClipboardError::ImageCodec)),
    {
        self.encode_image(rgb8_color(), jpeg_format())
    }

    fn to_png(&self) -> (r: Result<RustImageBuffer, ClipboardError>)
        ensures
            !self.holds_image() ==> r matches Err(ClipboardError::EmptyImage),
            self.holds_image() ==> (r is Ok || r matches Err(ClipboardError::ImageCodec)),
    {
        self.encode_image(rgba8_color(), png_format())
    }

    fn get_dynamic_image(&self) -> (r: Result<DynamicImage, ClipboardError>)
        ensures
            self.holds_image() <==> r is Ok,
            !self.holds_image() ==> r matches Err(ClipboardError::EmptyImage),
    {
        match &self.data {
            Some(image) => Ok(copy_of(image)),
            None => Err(ClipboardError::EmptyImage),
        }
    }
}

} // verus!
