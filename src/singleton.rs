//! Singleton pattern: the one instance is made by a private-looking
//! constructor and shared by whoever asks for it.

use vstd::prelude::*;

verus! {

/// The type of which one instance is shared.
pub struct TheSingleton {}

impl TheSingleton {
    /// Makes an instance; callers share the one kept by the program instead
    /// of calling this again.
    pub fn new() -> (r: TheSingleton)
        ensures
            r == (TheSingleton {}),
    {
        TheSingleton {}
    }
}

} // verus!
