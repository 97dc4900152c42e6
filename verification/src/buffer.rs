//! Container for all data required to draw an image.

use vstd::prelude::*;

use crate::defs::Size;

verus! {

/// Abstract value of a buffer.
pub struct BufferView {
    pub width: u32,
    pub height: u32,
    pub stride: u32,
    pub data: Seq<u8>,
}

/// Container for all data required to draw an image.
pub struct Buffer {
    width: u32,
    height: u32,
    stride: u32,
    data: Vec<u8>,
}

impl View for Buffer {
    type V = BufferView;

    closed spec fn view(&self) -> BufferView {
        BufferView { width: self.width, height: self.height, stride: self.stride, data: self.data@ }
    }
}

impl Buffer {
    /// `Buffer` constructor.
    ///
    /// The data must hold exactly `stride * height` bytes.
    pub fn new(width: u32, height: u32, stride: u32, data: Vec<u8>) -> (result: Self)
        requires
            stride * height <= u32::MAX,
            stride * height == data@.len(),
        ensures
            result@ == (BufferView { width: width, height: height, stride: stride, data: data@ }),
    {
        Buffer { width: width, height: height, stride: stride, data: data }
    }

    /// Constructor of empty `Buffer`.
    pub fn empty() -> (result: Self)
        ensures
            result@ == (BufferView { width: 0, height: 0, stride: 0, data: Seq::<u8>::empty() }),
    {
        Buffer { width: 0, height: 0, stride: 0, data: Vec::new() }
    }

    /// Copy data from `other` buffer to `self`.
    pub fn assign_from(&mut self, other: &Buffer)
        ensures
            final(self)@ == other@,
    {
        self.width = other.width;
        self.height = other.height;
        self.stride = other.stride;
        self.data = other.data.clone();
        assert(self.data@ =~= other.data@);
    }

    /// Get width and height of the buffer.
    pub fn get_size(&self) -> (result: Size)
        ensures
            result.width == self@.width,
            result.height == self@.height,
    {
        Size { width: self.width as usize, height: self.height as usize }
    }

    /// Check if buffer contains drawable data.
    pub fn is_empty(&self) -> (result: bool)
        ensures
            result == (self@.width == 0 || self@.height == 0 || self@.stride == 0
                || self@.data.len() == 0),
    {
        (self.width == 0) || (self.height == 0) || (self.stride == 0) || (self.data.len() == 0)
    }
}

} // verus!
