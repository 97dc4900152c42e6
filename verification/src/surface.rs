//! Structures and functionality related to surfaces.

use vstd::prelude::*;

use crate::defs::{MemoryViewId, Position, Size, SurfaceId, Vector};
use crate::memory::MemoryView;

verus! {

/// This structure defines how the surface should be drawn.
#[derive(Clone, Copy, Debug)]
pub struct SurfaceContext {
    pub id: SurfaceId,
    pub pos: Position,
}

impl SurfaceContext {
    /// `SurfaceContext` constructor.
    pub fn new(id: SurfaceId, pos: Position) -> (result: Self)
        ensures
            result.id == id,
            result.pos == pos,
    {
        SurfaceContext { id: id, pos: pos }
    }

    /// Creates new context with position moved by given vector.
    pub fn moved(&self, vector: Vector) -> (result: Self)
        requires
            self.pos.can_add(vector),
        ensures
            result.id == self.id,
            result.pos.x == self.pos.x + vector.x,
            result.pos.y == self.pos.y + vector.y,
    {
        SurfaceContext::new(self.id, self.pos.add(vector))
    }
}

/// Flags describing readiness of a surface to be displayed.
pub type ShowReason = u32;

/// No reason to show the surface.
pub const SHOW_REASON_NONE: ShowReason = 0b0000;

/// The surface has contents to draw.
pub const SHOW_REASON_DRAWABLE: ShowReason = 0b0001;

/// The surface was given a role in the shell.
pub const SHOW_REASON_IN_SHELL: ShowReason = 0b0010;

/// All reasons needed for the surface to be shown.
pub const SHOW_REASON_READY: ShowReason = 0b0011;

/// Flags describing state of a surface.
pub type SurfaceState = u32;

/// Surface in regular state.
pub const SURFACE_STATE_REGULAR: SurfaceState = 0x0000;

/// Maximized surface.
pub const SURFACE_STATE_MAXIMIZED: SurfaceState = 0b0001;

/// Surface shown full screen.
pub const SURFACE_STATE_FULLSCREEN: SurfaceState = 0x0010;

/// Surface being resized.
pub const SURFACE_STATE_RESIZING: SurfaceState = 0x0100;

/// Structure containing public information about surface.
pub struct SurfaceInfo {
    pub id: SurfaceId,
    pub offset: Vector,
    pub parent_sid: SurfaceId,
    pub desired_size: Size,
    pub requested_size: Size,
    pub state_flags: SurfaceState,
    pub buffer: Option<MemoryView>,
}

/// Managing surface content.
pub trait SurfaceManagement {
    /// Creates new surface with newly generated unique ID.
    fn create_surface(&mut self) -> SurfaceId;

    /// Sets given buffer as pending for given surface.
    fn attach_surface(&self, mvid: MemoryViewId, sid: SurfaceId);

    /// Informs other parts of application the surface is now not visible.
    fn detach_surface(&self, sid: SurfaceId);

    /// Commits the surface.
    fn commit_surface(&self, sid: SurfaceId);

    /// Detaches and forgets given surface.
    fn destroy_surface(&self, sid: SurfaceId);
}

/// Controlling surfaces parameters like size, position and relationships.
pub trait SurfaceControl {
    /// Adds given show reason flag to set of surfaces show reason.
    fn show_surface(&self, sid: SurfaceId, reason: ShowReason);

    /// Subtracts given show reason flag from set of surfaces show reason.
    fn hide_surface(&self, sid: SurfaceId, reason: ShowReason);

    /// Sets position offset given surface.
    fn set_surface_offset(&self, sid: SurfaceId, offset: Vector);

    /// Sets requested size for given surface.
    fn set_surface_requested_size(&self, sid: SurfaceId, size: Size);

    /// Sets satellite surface position relative to its parent.
    fn set_surface_relative_position(&self, sid: SurfaceId, offset: Vector);

    /// Relates two surfaces.
    fn relate_surfaces(&self, sid: SurfaceId, parent_sid: SurfaceId);

    /// Unrelates two surfaces.
    fn unrelate_surface(&self, sid: SurfaceId);
}

/// Viewing information about surface.
pub trait SurfaceViewer {
    /// Returns information about surface.
    fn get_surface(&self, sid: SurfaceId) -> Option<SurfaceInfo>;
}

/// Trait used for configuring and manipulating surfaces.
pub trait SurfaceAccess {
    /// Reconfigure surface and send notification about this event.
    fn reconfigure(&mut self, sid: SurfaceId, size: Size, state_flags: SurfaceState);
}

/// Listing related surfaces.
pub trait SurfaceListing {
    /// Returns surface context.
    fn get_renderer_context(&self, sid: SurfaceId) -> Option<Vec<SurfaceContext>>;
}

/// Focusing and obtaining information about keyboard and pointer focus.
pub trait SurfaceFocusing {
    /// Returns ID of currently keyboard-focussed surface.
    fn get_keyboard_focused_sid(&self) -> SurfaceId;

    /// Informs rest of the application exhibitor set keyboard focus to given surface.
    fn set_keyboard_focus(&mut self, sid: SurfaceId);

    /// Returns ID of currently pointer-focussed surface.
    fn get_pointer_focused_sid(&self) -> SurfaceId;

    /// Informs rest of the application exhibitor set pointer focus to given surface.
    fn set_pointer_focus(&mut self, sid: SurfaceId, position: Position);
}

} // verus!
