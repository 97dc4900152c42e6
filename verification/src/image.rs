//! Images and access to them.

use vstd::prelude::*;

use crate::defs::Size;

verus! {

/// Format of a pixel.
#[derive(Clone, Copy, Debug, PartialEq, Eq, Structural)]
pub enum PixelFormat {
    XRGB8888,
    ARGB8888,
    XBGR8888,
    ABGR8888,
}

impl PixelFormat {
    /// Size in bytes of a pixel encoded in this format.
    pub open spec fn spec_size(self) -> usize {
        match self {
            PixelFormat::XBGR8888 => 4,
            PixelFormat::ABGR8888 => 4,
            PixelFormat::XRGB8888 => 4,
            PixelFormat::ARGB8888 => 4,
        }
    }

    /// Returns size in bytes of pixel encoded in given format.
    pub fn get_size(&self) -> (result: usize)
        ensures
            result == self.spec_size(),
    {
        match *self {
            PixelFormat::XBGR8888 => 4,
            PixelFormat::ABGR8888 => 4,
            PixelFormat::XRGB8888 => 4,
            PixelFormat::ARGB8888 => 4,
        }
    }
}

/// Trait providing interface for image storing objects.
pub trait Image {
    /// Width and height of the image.
    spec fn spec_size(&self) -> Size;

    /// Get width and height of the image.
    fn get_size(&self) -> (result: Size)
        ensures
            result == self.spec_size(),
    ;

    /// Return width of the image.
    fn get_width(&self) -> (result: usize)
        ensures
            result == self.spec_size().width,
    ;

    /// Returns height of the image.
    fn get_height(&self) -> (result: usize)
        ensures
            result == self.spec_size().height,
    ;
}

/// Trait providing interface for pixmap storing objects.
pub trait Pixmap: Image {
    /// Pixel format of the pixmap.
    spec fn spec_format(&self) -> PixelFormat;

    /// Bytes of the pixmap.
    spec fn spec_data(&self) -> Seq<u8>;

    /// Returns pixel format of the pixmap.
    fn get_format(&self) -> (result: PixelFormat)
        ensures
            result == self.spec_format(),
    ;

    /// Returns data as slice.
    fn as_slice(&self) -> (result: &[u8])
        ensures
            result@ == self.spec_data(),
    ;
}

} // verus!
