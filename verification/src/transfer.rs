//! Data structures used for data transfers between clients (e.g. copy-paste).

use vstd::prelude::*;

verus! {

/// Data related to transferring data.
#[derive(Clone)]
pub struct Transfer {
    pub mime_types: Vec<String>,
}

impl Transfer {
    /// Constructs new `Transfer`.
    pub fn new() -> (result: Self)
        ensures
            result.mime_types@ == Seq::<String>::empty(),
    {
        Transfer { mime_types: Vec::new() }
    }

    /// Adds offered mime type.
    pub fn add_mime_type(&mut self, mime_type: String)
        ensures
            final(self).mime_types@ == old(self).mime_types@.push(mime_type),
    {
        self.mime_types.push(mime_type);
    }

    /// Returns list of all offered mime types.
    pub fn get_mime_types(&self) -> (result: &Vec<String>)
        ensures
            result@ == self.mime_types@,
    {
        &self.mime_types
    }
}

} // verus!
