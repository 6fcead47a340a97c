//! What the library needs of a playing sound: that it can be stopped. The
//! sounds themselves are opened and played outside the library.
use vstd::prelude::*;

verus! {

/// A sound that plays until stopped.
pub trait Player {
    /// Stops the sound.
    fn stop(&self);
}

} // verus!
