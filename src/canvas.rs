//! Render sessions: one frame of pixels, bound to a borrowed configuration.
//!
//! The conversion of pixels into escape sequences belongs to the native engine. A
//! session decides which frames it accepts and what a render returns, given what the
//! engine printed.

use vstd::prelude::*;
use crate::config::{Config, ConfigView};
use crate::error::ChafaError;
use crate::modes::{bytes_per_pixel_spec, PixelType};

verus! {

/// A frame of pixels that a session accepted: its layout and size.
#[derive(Clone, Copy, Debug, PartialEq, Eq, Structural)]
pub struct PixelFrame {
    pub pixel_type: PixelType,
    pub width: i32,
    pub height: i32,
    pub rowstride: i32,
}

/// Whether a buffer of `len` bytes holds a frame of the given layout: a real pixel
/// type, a positive size, rows wide enough for their pixels, and every row present.
pub open spec fn frame_fits(len: int, pixel_type: PixelType, width: int, height: int, rowstride: int) -> bool {
    &&& pixel_type != PixelType::Max
    &&& width > 0
    &&& height > 0
    &&& rowstride >= width * bytes_per_pixel_spec(pixel_type)
    &&& len >= rowstride * height
}

/// Whether a buffer of `len` bytes holds a frame of the given layout.
pub fn buffer_fits(len: usize, pixel_type: PixelType, src_width: i32, src_height: i32, src_rowstride: i32) -> (r: bool)
    ensures
        r == frame_fits(len as int, pixel_type, src_width as int, src_height as int, src_rowstride as int),
{
    let bpp = pixel_type.bytes_per_pixel();
    let mut fits = !pixel_type.is_max() && src_width > 0 && src_height > 0;
    if fits {
        proof {
            assert(0 < (src_width as int) * (bpp as int) <= 0x7fff_ffff * 4) by (nonlinear_arith)
                requires 0 < src_width <= 0x7fff_ffff, 0 < bpp <= 4;
            assert(0 <= (src_rowstride as int) * (src_height as int) <= 0x7fff_ffff * 0x7fff_ffff
                || src_rowstride < 0) by (nonlinear_arith)
                requires src_rowstride <= 0x7fff_ffff, 0 < src_height <= 0x7fff_ffff;
        }
        fits = (src_rowstride as i64) >= (src_width as i64) * (bpp as i64);
        if fits {
            fits = (len as i128) >= (src_rowstride as i128) * (src_height as i128);
        }
    }
    fits
}

/// What a session holds: its configuration and the frame it accepted last, if any.
pub struct CanvasView {
    pub config: ConfigView,
    pub frame: Option<PixelFrame>,
}

/// What a render returns: the engine's output where the session holds a frame and the
/// engine printed something, and `RenderFailed` otherwise.
pub open spec fn render_result(frame: Option<PixelFrame>, printed: Option<String>) -> Result<String, ChafaError> {
    match (frame, printed) {
        (Some(_), Some(s)) => Ok(s),
        _ => Err(ChafaError::RenderFailed),
    }
}

/// A render session. It borrows its configuration, which therefore cannot change
/// while the session lives.
pub struct Canvas<'a> {
    config: &'a Config,
    frame: Option<PixelFrame>,
}

impl<'a> View for Canvas<'a> {
    type V = CanvasView;

    closed spec fn view(&self) -> CanvasView {
        CanvasView { config: self.config@, frame: self.frame }
    }
}

impl<'a> Canvas<'a> {
    /// A session on `config`, with no frame yet.
    pub fn new(config: &'a Config) -> (r: Canvas<'a>)
        ensures
            r@.config == config@,
            r@.frame is None,
    {
        Canvas { config, frame: None }
    }

    /// The configuration the session renders with.
    pub fn config(&self) -> (r: &'a Config)
        ensures
            r@ == self@.config,
    {
        self.config
    }

    /// The frame the session holds, if any.
    pub fn frame(&self) -> (r: Option<PixelFrame>)
        ensures
            r == self@.frame,
    {
        self.frame
    }

    /// Submits a frame, which replaces the one held before. A buffer that does not
    /// hold a frame of the stated layout is refused, and the session stays as it was.
    pub fn set_pixels(
        &mut self,
        pixels: &[u8],
        pixel_type: PixelType,
        src_width: i32,
        src_height: i32,
        src_rowstride: i32,
    )
        ensures
            final(self)@.config == old(self)@.config,
            frame_fits(
                pixels@.len() as int,
                pixel_type,
                src_width as int,
                src_height as int,
                src_rowstride as int,
            ) ==> final(self)@.frame == Some(
                PixelFrame { pixel_type, width: src_width, height: src_height, rowstride: src_rowstride },
            ),
            !frame_fits(
                pixels@.len() as int,
                pixel_type,
                src_width as int,
                src_height as int,
                src_rowstride as int,
            ) ==> final(self)@ == old(self)@,
    {
        let fits = buffer_fits(pixels.len(), pixel_type, src_width, src_height, src_rowstride);
        if fits {
            self.frame = Some(PixelFrame { pixel_type, width: src_width, height: src_height, rowstride: src_rowstride });
        }
    }

    /// Finishes a render, given what the engine printed for the session's frame
    /// (`None` where it printed nothing). Without a frame the render fails.
    pub fn into_string(&self, printed: Option<String>) -> (r: Result<String, ChafaError>)
        ensures
            r == render_result(self@.frame, printed),
    {
        match (self.frame, printed) {
            (Some(_), Some(s)) => Ok(s),
            _ => Err(ChafaError::RenderFailed),
        }
    }
}

} // verus!
