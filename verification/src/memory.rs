//! Buffer memory management.
//!
//! Clients usually share images with server using shared memory. Client creates big shared memory
//! and then tells server which parts server should use for drawing on surfaces. `MappedMemory`
//! represents these shared memory and `MemoryView` can be used to view parts of it.
//!
//! Images to redraw can be also created locally or read from file. These images can be stored in
//! `Buffer`. `Buffer` owns its data unlike `MemoryView`.
//!
//! `MemoryPool` is used to provide mechanism for storing mapped and buffered memory. The only way
//! to construct `MemoryView` is through `MemoryPool`. Both keep a counted reference to the memory,
//! so `MemoryView`s can be safely used even after the memory was removed from `MemoryPool`.

use std::sync::Arc;

use vstd::prelude::*;

use crate::defs::Size;
use crate::image::{Image, PixelFormat, Pixmap};

verus! {

/// Returns another counted reference to the value of `arc` with `Arc::clone`, which points to the
/// same allocation.
#[verifier::external_body]
fn arc_clone<T>(arc: &Arc<T>) -> (result: Arc<T>)
    ensures
        result == *arc,
{
    arc.clone()
}

/// Takes the value out of `arc` with `Arc::try_unwrap`, which succeeds when no other counted
/// reference to it exists and otherwise hands the reference back. Which of the two happens is not
/// claimed: it depends on references held elsewhere.
#[verifier::external_body]
fn arc_try_unwrap<T>(arc: Arc<T>) -> (result: Result<T, Arc<T>>)
    ensures
        match result {
            Ok(value) => value == *arc,
            Err(back) => back == arc,
        },
{
    Arc::try_unwrap(arc)
}

/// Abstract value of a buffer.
pub struct BufferView {
    pub format: PixelFormat,
    pub width: usize,
    pub height: usize,
    pub stride: usize,
    pub data: Seq<u8>,
}

/// Container for all data required to draw an image.
#[derive(Clone, Debug)]
pub struct Buffer {
    format: PixelFormat,
    width: usize,
    height: usize,
    stride: usize,
    data: Vec<u8>,
}

impl View for Buffer {
    type V = BufferView;

    closed spec fn view(&self) -> BufferView {
        BufferView {
            format: self.format,
            width: self.width,
            height: self.height,
            stride: self.stride,
            data: self.data@,
        }
    }
}

impl Buffer {
    /// Constructs `Buffer`.
    ///
    /// The data must hold exactly `stride * height` bytes.
    pub fn new(format: PixelFormat, width: usize, height: usize, stride: usize, data: Vec<u8>) -> (result:
        Self)
        requires
            stride * height <= usize::MAX,
            stride * height == data@.len(),
        ensures
            result@ == (BufferView {
                format: format,
                width: width,
                height: height,
                stride: stride,
                data: data@,
            }),
    {
        Buffer { format: format, width: width, height: height, stride: stride, data: data }
    }

    /// Constructs empty `Buffer`.
    pub fn empty() -> (result: Self)
        ensures
            result@ == (BufferView {
                format: PixelFormat::XRGB8888,
                width: 0,
                height: 0,
                stride: 0,
                data: Seq::<u8>::empty(),
            }),
    {
        Buffer { format: PixelFormat::XRGB8888, width: 0, height: 0, stride: 0, data: Vec::new() }
    }

    /// Copies data from `other` buffer to `self`.
    pub fn assign_from(&mut self, other: &Buffer)
        ensures
            final(self)@ == other@,
    {
        self.format = other.format;
        self.width = other.width;
        self.height = other.height;
        self.stride = other.stride;
        self.data = other.data.clone();
        assert(self.data@ =~= other.data@);
    }

    /// Checks if buffer contains drawable data.
    pub fn is_empty(&self) -> (result: bool)
        ensures
            result == (self@.width == 0 || self@.height == 0 || self@.stride == 0
                || self@.data.len() == 0),
    {
        (self.width == 0) || (self.height == 0) || (self.stride == 0) || (self.data.len() == 0)
    }
}

impl Image for Buffer {
    closed spec fn spec_size(&self) -> Size {
        Size { width: self.width, height: self.height }
    }

    fn get_size(&self) -> (result: Size) {
        Size { width: self.width, height: self.height }
    }

    fn get_width(&self) -> (result: usize) {
        self.width
    }

    fn get_height(&self) -> (result: usize) {
        self.height
    }
}

impl Pixmap for Buffer {
    closed spec fn spec_format(&self) -> PixelFormat {
        self.format
    }

    closed spec fn spec_data(&self) -> Seq<u8> {
        self.data@
    }

    fn get_format(&self) -> (result: PixelFormat) {
        self.format
    }

    fn as_slice(&self) -> (result: &[u8]) {
        self.data.as_slice()
    }
}

/// Size and width of an image stored in a buffer agree with its view.
pub proof fn lemma_buffer_image_matches_view(buffer: Buffer)
    ensures
        buffer.spec_size().width == buffer@.width,
        buffer.spec_size().height == buffer@.height,
        buffer.spec_format() == buffer@.format,
        buffer.spec_data() == buffer@.data,
{
}

/// Represents memory shared with client: where the application mapped it and how many bytes it
/// spans.
pub struct MappedMemory {
    address: usize,
    size: usize,
}

impl MappedMemory {
    /// Address at which the memory is mapped.
    pub closed spec fn spec_address(&self) -> usize {
        self.address
    }

    /// Number of bytes mapped.
    pub closed spec fn spec_size(&self) -> usize {
        self.size
    }

    /// Describes memory that the application mapped at `address` spanning `size` bytes.
    pub fn from_mapping(address: usize, size: usize) -> (result: Self)
        ensures
            result.spec_address() == address,
            result.spec_size() == size,
    {
        MappedMemory { address: address, size: size }
    }

    /// Returns the address at which the memory is mapped.
    pub fn get_address(&self) -> (result: usize)
        ensures
            result == self.spec_address(),
    {
        self.address
    }

    /// Returns the number of bytes mapped.
    pub fn get_size(&self) -> (result: usize)
        ensures
            result == self.spec_size(),
    {
        self.size
    }
}

/// Enumeration used by `MemoryPool` to keep track of data types it holds.
pub enum MemoryKind {
    Mapped(MappedMemory),
    Buffered(Buffer),
}

/// Represents view into memory shared with client.
pub struct MemoryView {
    memory: Arc<MemoryKind>,
    offset: usize,
    width: usize,
    height: usize,
    stride: usize,
    format: PixelFormat,
}

impl MemoryView {
    /// The memory viewed.
    pub closed spec fn spec_memory(&self) -> MemoryKind {
        *self.memory
    }

    /// Position of the first viewed byte within the memory.
    pub closed spec fn spec_offset(&self) -> usize {
        self.offset
    }

    /// Number of bytes between the starts of two consecutive rows.
    pub closed spec fn spec_stride(&self) -> usize {
        self.stride
    }

    /// Returns the position of the first viewed byte within the memory.
    pub fn get_offset(&self) -> (result: usize)
        ensures
            result == self.spec_offset(),
    {
        self.offset
    }

    /// Returns the number of bytes between the starts of two consecutive rows.
    pub fn get_stride(&self) -> (result: usize)
        ensures
            result == self.spec_stride(),
    {
        self.stride
    }

    /// Returns pixel format of the viewed image.
    pub fn get_format(&self) -> (result: PixelFormat)
        ensures
            result == self.spec_format(),
    {
        self.format
    }

    /// Pixel format of the viewed image.
    pub closed spec fn spec_format(&self) -> PixelFormat {
        self.format
    }

    /// Returns the address of the mapped memory viewed, or `None` when the view looks into a
    /// buffer.
    pub fn get_mapped_address(&self) -> (result: Option<usize>)
        ensures
            match self.spec_memory() {
                MemoryKind::Mapped(map) => result == Some(map.spec_address()),
                MemoryKind::Buffered(_) => result is None,
            },
    {
        match &*self.memory {
            MemoryKind::Mapped(map) => Some(map.address),
            MemoryKind::Buffered(_) => None,
        }
    }

    /// Returns the bytes of the buffer viewed, or `None` when the view looks into mapped memory.
    pub fn get_buffered_data(&self) -> (result: Option<&[u8]>)
        ensures
            match self.spec_memory() {
                MemoryKind::Mapped(_) => result is None,
                MemoryKind::Buffered(buffer) => result is Some && result->0@ == buffer@.data,
            },
    {
        match &*self.memory {
            MemoryKind::Mapped(_) => None,
            MemoryKind::Buffered(buffer) => Some(buffer.data.as_slice()),
        }
    }

    /// Returns a view of the same memory with the same geometry.
    pub fn duplicate(&self) -> (result: MemoryView)
        ensures
            result.spec_memory() == self.spec_memory(),
            result.spec_offset() == self.spec_offset(),
            result.spec_stride() == self.spec_stride(),
            result.spec_format() == self.spec_format(),
            result.spec_size() == self.spec_size(),
    {
        MemoryView {
            memory: arc_clone(&self.memory),
            offset: self.offset,
            width: self.width,
            height: self.height,
            stride: self.stride,
            format: self.format,
        }
    }
}

impl Image for MemoryView {
    closed spec fn spec_size(&self) -> Size {
        Size { width: self.width, height: self.height }
    }

    fn get_size(&self) -> (result: Size) {
        Size { width: self.width, height: self.height }
    }

    fn get_width(&self) -> (result: usize) {
        self.width
    }

    fn get_height(&self) -> (result: usize) {
        self.height
    }
}

/// This structure is used to provide storage for images of different type: shared memory and
/// buffers and return views to them.
pub struct MemoryPool {
    memory: Arc<MemoryKind>,
}

impl MemoryPool {
    /// The memory held by the pool.
    pub closed spec fn spec_memory(&self) -> MemoryKind {
        *self.memory
    }

    /// Creates new `MemoryPool` containing `MappedMemory`.
    pub fn new_from_mapped_memory(memory: MappedMemory) -> (result: Self)
        ensures
            result.spec_memory() == MemoryKind::Mapped(memory),
    {
        MemoryPool { memory: Arc::new(MemoryKind::Mapped(memory)) }
    }

    /// Creates new `MemoryPool` containing `Buffer`.
    pub fn new_from_buffer(buffer: Buffer) -> (result: Self)
        ensures
            result.spec_memory() == MemoryKind::Buffered(buffer),
    {
        MemoryPool { memory: Arc::new(MemoryKind::Buffered(buffer)) }
    }

    /// Returns a view into the memory stored in the pool. Views into mapped memory start at
    /// `offset`; views into a buffer start at its first byte.
    pub fn get_memory_view(
        &self,
        format: PixelFormat,
        offset: usize,
        width: usize,
        height: usize,
        stride: usize,
    ) -> (result: MemoryView)
        ensures
            result.spec_memory() == self.spec_memory(),
            result.spec_offset() == (match self.spec_memory() {
                MemoryKind::Mapped(_) => offset,
                MemoryKind::Buffered(_) => 0,
            }),
            result.spec_size() == (Size { width: width, height: height }),
            result.spec_stride() == stride,
            result.spec_format() == format,
    {
        let start = match &*self.memory {
            MemoryKind::Mapped(_) => offset,
            MemoryKind::Buffered(_) => 0,
        };
        MemoryView {
            memory: arc_clone(&self.memory),
            offset: start,
            width: width,
            height: height,
            stride: stride,
            format: format,
        }
    }

    /// Consumes the pool and if
    /// - it was created from mapped memory
    /// - there are no other references to this memory left
    /// returns the mapped memory.
    ///
    /// Whether other references are left is decided when the pool's reference is given up; the
    /// result is then the one `mapped_memory_of` gives for the outcome.
    pub fn take_mapped_memory(self) -> (result: Option<MappedMemory>)
        ensures
            match result {
                Some(memory) => self.spec_memory() == MemoryKind::Mapped(memory),
                None => true,
            },
            self.spec_memory() is Buffered ==> result is None,
    {
        let unwrapped = arc_try_unwrap(self.memory);
        mapped_memory_of(unwrapped)
    }
}

/// The mapped memory taken out of a pool's reference: the memory when the reference was the last
/// one and the pool held mapped memory, nothing when it held a buffer or other references remain.
pub fn mapped_memory_of(unwrapped: Result<MemoryKind, Arc<MemoryKind>>) -> (result: Option<
    MappedMemory,
>)
    ensures
        result == (match unwrapped {
            Ok(MemoryKind::Mapped(memory)) => Some(memory),
            Ok(MemoryKind::Buffered(_)) => None,
            Err(_) => None::<MappedMemory>,
        }),
{
    match unwrapped {
        Ok(kind) => match kind {
            MemoryKind::Mapped(mapped_memory) => Some(mapped_memory),
            MemoryKind::Buffered(_) => None,
        },
        Err(_) => None,
    }
}

} // verus!
