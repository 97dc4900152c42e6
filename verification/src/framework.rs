//! Client side of simple Wayland applications: what an application is told about the display
//! server.

use vstd::prelude::*;

use std::collections::HashSet;

verus! {

/// Set of informations about output.
#[derive(Clone, Debug)]
pub struct OutputInfo {
    pub x: isize,
    pub y: isize,
    pub width: usize,
    pub height: usize,
    pub make: String,
    pub model: String,
    pub id: u32,
}

impl OutputInfo {
    /// Constructs new `OutputInfo`.
    pub fn new(
        x: isize,
        y: isize,
        width: usize,
        height: usize,
        make: String,
        model: String,
        id: u32,
    ) -> (result: Self)
        ensures
            result.x == x,
            result.y == y,
            result.width == width,
            result.height == height,
            result.make == make,
            result.model == model,
            result.id == id,
    {
        OutputInfo {
            x: x,
            y: y,
            width: width,
            height: height,
            make: make,
            model: model,
            id: id,
        }
    }
}

/// Receiver of notifications about the state of the connection with the display server. Every
/// notification is ignored unless the application handles it.
pub trait Listener {
    /// Called when initialization is done.
    ///
    /// List of globals advertised by server is passed. If needed interface is not supported
    /// application can now warn and exit.
    fn init_done(&mut self, _globals: HashSet<String>) {
    }

    /// Called when list of available outputs was updated.
    fn outputs_done(&mut self, _outputs: Vec<OutputInfo>) {
    }

    /// Called when screenshot request ended successfully.
    fn screenshot_done(&mut self, _buffer: Vec<u8>) {
    }

    /// Called when screenshot request failed.
    fn screenshot_failed(&mut self) {
    }
}

/// Listener that ignores every notification.
pub struct Dummy {}

impl Listener for Dummy {

}

/// Application connecting to the display server.
pub struct Application {}

impl Application {
    /// Constructs new `Application`.
    pub fn new() -> (result: Self) {
        Application {}
    }
}

} // verus!
