//! The engine shared by every channel: immutable after construction, it holds
//! the locator of the backing audio resource that each synthesis job opens.

use vstd::prelude::*;

verus! {

/// Shared, read-only configuration of the synthesis engine.
pub struct Engine {
    filename: String,
}

impl Engine {
    /// The locator of the backing audio resource.
    pub closed spec fn locator(self) -> Seq<char> {
        self.filename@
    }

    pub fn new(filename: String) -> (e: Engine)
        ensures
            e.locator() == filename@,
    {
        Engine { filename }
    }

    /// Exec view of [`Engine::locator`].
    pub fn filename(&self) -> (r: &String)
        ensures
            r@ == self.locator(),
    {
        &self.filename
    }
}

} // verus!
