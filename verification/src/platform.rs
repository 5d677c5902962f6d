//! The desktop systems that the wallpaper tells apart.

use vstd::prelude::*;

verus! {

/// The desktop system that the process runs on.
#[derive(Clone, Copy, Debug, PartialEq, Eq, Structural)]
pub enum Platform {
    MacOs,
    Windows,
    /// Any other system: the wallpaper runs there without system audio and
    /// without its own window layer.
    Other,
}

} // verus!
