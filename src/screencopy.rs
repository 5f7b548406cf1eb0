use vstd::prelude::*;
use image::DynamicImage;
use memmap2::MmapMut;
use crate::convert::{
    abgr2101010_rgba16, abgr2101010_to_rgba16, abgr8888_to_rgba8, argb8888_to_rgba8,
    bgr888_to_rgb8, swap_red_blue, whole_pixels,
};
use crate::error::Error;
use crate::dispatch::{CaptureFrameState, FrameState, Transform};
use crate::region::{LogicalRegion, Size};

verus! {

/// image::DynamicImage, carried through as an opaque value.
#[verifier::external_type_specification]
#[verifier::external_body]
pub struct ExDynamicImage(DynamicImage);

/// memmap2::MmapMut, the mapping of a capture's shared memory, carried through
/// as an opaque value.
#[verifier::external_type_specification]
#[verifier::external_body]
pub struct ExMmapMut(MmapMut);

/// Pixel encodings a compositor may offer for a shared-memory buffer. The
/// formats this library normalises have a variant each; any other is kept as
/// its protocol code.
#[derive(Debug, Clone, Copy, PartialEq, Eq, Structural)]
pub enum PixelFormat {
    Argb8888,
    Xrgb8888,
    Abgr8888,
    Xbgr8888,
    Bgr888,
    Abgr2101010,
    Xbgr2101010,
    Other(u32),
}

/// The formats that can be normalised to RGB8, RGBA8 or RGBA16.
pub open spec fn is_supported(f: PixelFormat) -> bool {
    !(f is Other)
}

/// Channels per pixel of the normalised image for a supported format.
pub open spec fn channel_count(f: PixelFormat) -> nat {
    if f is Bgr888 {
        3
    } else {
        4
    }
}

/// A buffer format advertised by the compositor for one frame.
#[derive(Debug, Clone, Copy, PartialEq, Eq, Structural)]
pub struct FrameFormat {
    pub format: PixelFormat,
    /// Size of the frame in pixels, always in landscape orientation: a
    /// portrait 1080x1920 output gives 1920x1080 and needs rotating.
    pub size: Size,
    /// Bytes from the start of one row to the start of the next.
    pub stride: u32,
}

impl FrameFormat {
    /// Size of the frame in bytes: stride times height.
    pub fn byte_size(&self) -> (r: u64)
        ensures
            r == self.stride as int * self.size.height as int,
    {
        proof {
            vstd::arithmetic::mul::lemma_mul_upper_bound(
                self.stride as int,
                0xFFFF_FFFF,
                self.size.height as int,
                0xFFFF_FFFF,
            );
        }
        self.stride as u64 * self.size.height as u64
    }

    /// The size of the shared-memory pool for this frame, which the protocol
    /// carries as an `i32`; `None` when stride times height does not fit.
    pub fn pool_size(&self) -> (r: Option<i32>)
        ensures
            r matches Some(n) ==> n == self.stride as int * self.size.height as int,
            r is None <==> self.stride as int * self.size.height as int > i32::MAX,
    {
        let bytes = self.byte_size();
        if bytes <= i32::MAX as u64 {
            Some(bytes as i32)
        } else {
            None
        }
    }
}

/// Pixel bytes normalised to a fixed-width channel layout.
#[derive(Debug)]
pub enum Pixels {
    Rgb8(Vec<u8>),
    Rgba8(Vec<u8>),
    Rgba16(Vec<u16>),
}

/// What normalising `data` given in `format` yields.
pub open spec fn normalize_result(format: PixelFormat, data: Seq<u8>, r: Result<Pixels, Error>) -> bool {
    if !is_supported(format) {
        r == Err::<Pixels, Error>(Error::NoSupportedBufferFormat)
    } else if !whole_pixels(data.len()) {
        r == Err::<Pixels, Error>(Error::BufferTooSmall)
    } else {
        match format {
            PixelFormat::Bgr888 => r matches Ok(Pixels::Rgb8(v)) && v@ == data,
            PixelFormat::Abgr2101010 | PixelFormat::Xbgr2101010 => r matches Ok(Pixels::Rgba16(v))
                && v@ == abgr2101010_rgba16(data),
            PixelFormat::Abgr8888 | PixelFormat::Xbgr8888 => r matches Ok(Pixels::Rgba8(v)) && v@
                == data,
            _ => r matches Ok(Pixels::Rgba8(v)) && v@ == swap_red_blue(data),
        }
    }
}

/// Converts `data`, encoded in `format`, to RGB8, RGBA8 or RGBA16 as the
/// format calls for. An unsupported format is an error, never passed
/// through; bytes that do not make whole 4-byte pixels are refused as too
/// small for the frame.
pub fn normalize(format: PixelFormat, data: &[u8]) -> (r: Result<Pixels, Error>)
    ensures
        normalize_result(format, data@, r),
{
    match format {
        PixelFormat::Bgr888 => match bgr888_to_rgb8(data) {
            Some(v) => Ok(Pixels::Rgb8(v)),
            None => Err(Error::BufferTooSmall),
        },
        PixelFormat::Abgr8888 | PixelFormat::Xbgr8888 => match abgr8888_to_rgba8(data) {
            Some(v) => Ok(Pixels::Rgba8(v)),
            None => Err(Error::BufferTooSmall),
        },
        PixelFormat::Argb8888 | PixelFormat::Xrgb8888 => match argb8888_to_rgba8(data) {
            Some(v) => Ok(Pixels::Rgba8(v)),
            None => Err(Error::BufferTooSmall),
        },
        PixelFormat::Abgr2101010 | PixelFormat::Xbgr2101010 => match abgr2101010_to_rgba16(data) {
            Some(v) => Ok(Pixels::Rgba16(v)),
            None => Err(Error::BufferTooSmall),
        },
        PixelFormat::Other(_) => Err(Error::NoSupportedBufferFormat),
    }
}

/// The RGB8 image that image::ImageBuffer::from_vec builds from a width, a
/// height and its samples.
pub uninterp spec fn rgb8_image(width: u32, height: u32, buf: Seq<u8>) -> DynamicImage;

/// The RGBA8 image that image::ImageBuffer::from_vec builds from a width, a
/// height and its samples.
pub uninterp spec fn rgba8_image(width: u32, height: u32, buf: Seq<u8>) -> DynamicImage;

/// The RGBA16 image that image::ImageBuffer::from_vec builds from a width, a
/// height and its samples.
pub uninterp spec fn rgba16_image(width: u32, height: u32, buf: Seq<u16>) -> DynamicImage;

/// Relies on image::ImageBuffer::from_vec for RGB8 pixels: it gives an image
/// exactly when the buffer holds at least 3 * width * height values.
#[verifier::external_body]
fn image_rgb8(width: u32, height: u32, buf: Vec<u8>) -> (r: Option<DynamicImage>)
    ensures
        r.is_some() <==> 3 * width * height <= buf@.len(),
        r matches Some(img) ==> img == rgb8_image(width, height, buf@),
{
    image::ImageBuffer::<image::Rgb<u8>, Vec<u8>>::from_vec(width, height, buf).map(
        DynamicImage::ImageRgb8,
    )
}

/// Relies on image::ImageBuffer::from_vec for RGBA8 pixels: it gives an image
/// exactly when the buffer holds at least 4 * width * height values.
#[verifier::external_body]
fn image_rgba8(width: u32, height: u32, buf: Vec<u8>) -> (r: Option<DynamicImage>)
    ensures
        r.is_some() <==> 4 * width * height <= buf@.len(),
        r matches Some(img) ==> img == rgba8_image(width, height, buf@),
{
    image::ImageBuffer::<image::Rgba<u8>, Vec<u8>>::from_vec(width, height, buf).map(
        DynamicImage::ImageRgba8,
    )
}

/// Relies on image::ImageBuffer::from_vec for RGBA16 pixels: it gives an image
/// exactly when the buffer holds at least 4 * width * height values.
#[verifier::external_body]
fn image_rgba16(width: u32, height: u32, buf: Vec<u16>) -> (r: Option<DynamicImage>)
    ensures
        r.is_some() <==> 4 * width * height <= buf@.len(),
        r matches Some(img) ==> img == rgba16_image(width, height, buf@),
{
    image::ImageBuffer::<image::Rgba<u16>, Vec<u16>>::from_vec(width, height, buf).map(
        DynamicImage::ImageRgba16,
    )
}

/// The image of a frame in format `f` whose raw bytes are `data`: the bytes
/// normalised as the format calls for, at the frame's width and height.
pub open spec fn frame_image(f: FrameFormat, data: Seq<u8>) -> DynamicImage {
    let w = f.size.width;
    let h = f.size.height;
    if f.format is Bgr888 {
        rgb8_image(w, h, data)
    } else if f.format is Abgr2101010 || f.format is Xbgr2101010 {
        rgba16_image(w, h, abgr2101010_rgba16(data))
    } else if f.format is Abgr8888 || f.format is Xbgr8888 {
        rgba8_image(w, h, data)
    } else {
        rgba8_image(w, h, swap_red_blue(data))
    }
}

/// Builds the image of a frame from its raw bytes: the bytes are normalised
/// as `frame_format.format` requires, then must cover the frame's width and
/// height.
pub fn frame_to_image(frame_format: &FrameFormat, data: &[u8]) -> (r: Result<DynamicImage, Error>)
    ensures
        !is_supported(frame_format.format) ==> r matches Err(Error::NoSupportedBufferFormat),
        is_supported(frame_format.format) ==> (r.is_ok() <==> whole_pixels(data@.len())
            && channel_count(frame_format.format) * frame_format.size.width
            * frame_format.size.height <= data@.len()),
        is_supported(frame_format.format) ==> (r matches Err(e) ==> e == Error::BufferTooSmall),
        r matches Ok(img) ==> img == frame_image(*frame_format, data@),
{
    let width = frame_format.size.width;
    let height = frame_format.size.height;
    let image = match normalize(frame_format.format, data) {
        Err(e) => return Err(e),
        Ok(Pixels::Rgb8(v)) => image_rgb8(width, height, v),
        Ok(Pixels::Rgba8(v)) => image_rgba8(width, height, v),
        Ok(Pixels::Rgba16(v)) => image_rgba16(width, height, v),
    };
    match image {
        Some(img) => Ok(img),
        None => Err(Error::BufferTooSmall),
    }
}

/// A completed copy of one output: the format it was made in, the shared
/// memory holding its pixels, and the output's geometry at the time.
#[derive(Debug)]
pub struct FrameCopy {
    pub frame_format: FrameFormat,
    pub frame_mmap: MmapMut,
    pub transform: Transform,
    /// Logical region with the transform already applied.
    pub logical_region: LogicalRegion,
    pub physical_size: Size,
}

/// Relies on memmap2::MmapMut's `Deref` to `[u8]`: the mapped bytes, whose
/// contents the compositor wrote.
#[verifier::external_body]
fn mapped_bytes(map: &MmapMut) -> (r: &[u8]) {
    &map[..]
}

impl FrameCopy {
    /// The frame's pixels as an image, normalised from the captured format.
    /// What the image holds depends on the bytes the compositor wrote into
    /// the mapping: on success it is the frame image of those bytes.
    pub fn to_image(&self) -> (r: Result<DynamicImage, Error>)
        ensures
            !is_supported(self.frame_format.format) ==> r matches Err(
                Error::NoSupportedBufferFormat,
            ),
            is_supported(self.frame_format.format) ==> (r matches Err(e) ==> e
                == Error::BufferTooSmall),
            r matches Ok(img) ==> exists|d: Seq<u8>|
                whole_pixels(d.len()) && channel_count(self.frame_format.format)
                    * self.frame_format.size.width * self.frame_format.size.height <= d.len()
                    && img == #[trigger] frame_image(self.frame_format, d),
    {
        let bytes = mapped_bytes(&self.frame_mmap);
        let r = frame_to_image(&self.frame_format, bytes);
        if let Ok(img) = &r {
            assert(img == frame_image(self.frame_format, bytes@));
        }
        r
    }
}

/// Ends a capture session. A finished copy is packaged with its format and
/// the output's geometry; a failed one drops the mapping and reports the
/// compositor's refusal.
pub fn finish_capture(
    session: &CaptureFrameState,
    frame_format: FrameFormat,
    frame_mmap: MmapMut,
    transform: Transform,
    logical_region: LogicalRegion,
    physical_size: Size,
) -> (r: Result<FrameCopy, Error>)
    requires
        session.state is Some,
    ensures
        session.state == Some(FrameState::Failed) ==> r matches Err(Error::CompositorRejected),
        session.state == Some(FrameState::Finished) ==> (r matches Ok(c) && c.frame_format
            == frame_format && c.frame_mmap == frame_mmap && c.transform == transform
            && c.logical_region == logical_region && c.physical_size == physical_size),
{
    match session.completion() {
        Some(Ok(())) => Ok(
            FrameCopy { frame_format, frame_mmap, transform, logical_region, physical_size },
        ),
        _ => Err(Error::CompositorRejected),
    }
}

} // verus!
