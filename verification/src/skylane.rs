//! Definitions shared by the server and client parts of the Wayland protocol machinery.

use vstd::prelude::*;

verus! {

/// Error enumeration for all protocol errors.
#[derive(Debug)]
pub enum SkylaneError {
    IO { description: String },
    Socket { description: String },
    WrongObject { object_id: u32 },
    WrongOpcode { name: &'static str, object_id: u32, opcode: u16 },
    Other(String),
}

/// Header of Wayland message.
#[derive(Clone, Copy, Debug, PartialEq, Eq, Structural)]
pub struct Header {
    /// ID of the referred objects.
    pub object_id: u32,
    /// ID of the called method.
    pub opcode: u16,
    /// Size of the message including header.
    pub size: u16,
}

/// Structure representing ID of protocol object.
#[derive(Clone, Copy, PartialEq, Eq, Structural, Hash, Debug)]
pub struct ObjectId(pub u32);

impl ObjectId {
    /// Constructs an object ID.
    pub fn new(value: u32) -> (result: Self)
        ensures
            result.0 == value,
    {
        ObjectId(value)
    }

    /// Returns numerical value of objects ID.
    pub fn get_value(&self) -> (result: u32)
        ensures
            result == self.0,
    {
        self.0
    }

    /// Checks if object ID is the null ID.
    pub fn is_null(&self) -> (result: bool)
        ensures
            result == (self.0 == 0),
    {
        self.0 == 0
    }
}

/// Default ID of main global object.
pub fn display_id() -> (result: ObjectId)
    ensures
        result.0 == 1,
{
    ObjectId(1)
}

} // verus!
