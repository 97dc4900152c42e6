//! Interfaces through which parts of the compositor ask the coordinator for services.

use vstd::prelude::*;

use crate::defs::{MemoryPoolId, MemoryViewId, SurfaceId};
use crate::image::PixelFormat;
use crate::memory::{Buffer, MappedMemory};
use crate::surface::SurfaceManagement;
use crate::transfer::Transfer;

verus! {

/// Managing the looks of the screen.
pub trait AppearanceManagement {
    /// Sets given surface as cursor.
    fn set_surface_as_cursor(&self, sid: SurfaceId);

    /// Sets given surface as background.
    fn set_surface_as_background(&self, sid: SurfaceId);
}

/// Transferring data between clients.
pub trait DataTransferring {
    /// Sets transfer offer.
    fn set_transfer(&mut self, transfer: Option<Transfer>);

    /// Returns transfer offer.
    fn get_transfer(&self) -> Option<Transfer>;

    /// Requests start of data transfer to requesting client, writing to the file descriptor
    /// `fd`.
    fn request_transfer(&mut self, mime_type: String, fd: i32);
}

/// Managing memory shared with clients.
pub trait MemoryManagement {
    /// Creates new memory pool from mapped memory. Returns ID of newly created pool.
    fn create_pool_from_memory(&mut self, memory: MappedMemory) -> MemoryPoolId;

    /// Creates new memory pool from buffer. Returns ID of newly created pool.
    fn create_pool_from_buffer(&mut self, buffer: Buffer) -> MemoryPoolId;

    /// Schedules destruction of memory pool identified by given ID. The pool will be destructed
    /// when all its views go out of the scope.
    ///
    /// If the poll was created from mapped memory, returns this memory.
    fn destroy_memory_pool(&mut self, mpid: MemoryPoolId) -> Option<MappedMemory>;

    /// Replaces mapped memory with other memory reusing its ID. This method may be used when
    /// client requests memory map resize.
    fn replace_memory_pool(&mut self, mpid: MemoryPoolId, memory: MappedMemory);

    /// Creates new memory view from mapped memory.
    fn create_memory_view(
        &mut self,
        mpid: MemoryPoolId,
        format: PixelFormat,
        offset: usize,
        width: usize,
        height: usize,
        stride: usize,
    ) -> Option<MemoryViewId>;

    /// Destroys memory view.
    fn destroy_memory_view(&mut self, mpid: MemoryViewId);
}

/// Taking screenshots.
pub trait Screenshooting {
    /// Makes screenshot request.
    fn take_screenshot(&mut self, id: i32);

    /// Sets given buffer as results of screenshot.
    fn set_screenshot_buffer(&mut self, buffer: Buffer);

    /// Returns and forgets screenshot buffer.
    fn take_screenshot_buffer(&mut self) -> Option<Buffer>;
}

/// Services the aesthetics part needs from the coordinator.
pub trait AestheticsCoordinationTrait: SurfaceManagement + AppearanceManagement + MemoryManagement {

}

} // verus!
