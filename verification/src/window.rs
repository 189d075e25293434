//! The host's window and cursor, as far as this library reads and writes them.

use vstd::prelude::*;

verus! {

/// How the cursor is held by the window.
#[derive(Clone, Copy, Debug, PartialEq, Eq, Structural)]
pub enum CursorGrabMode {
    /// The cursor moves freely and may leave the window.
    Free,
    /// The cursor moves, but cannot leave the window.
    Confined,
    /// The cursor is held in place inside the window.
    Locked,
}

/// What the operating system is asked to do with the cursor.
#[derive(Clone, Copy, Debug, PartialEq, Eq, Structural)]
pub struct CursorOptions {
    /// Whether the cursor is drawn.
    pub visible: bool,
    /// Whether and how the cursor is held.
    pub grab_mode: CursorGrabMode,
}

/// The window: whether it takes input, and how large it is. Width and height
/// are counted in one unit of length, the caller's choice.
#[derive(Clone, Copy, Debug, PartialEq, Eq, Structural)]
pub struct Window {
    pub focused: bool,
    pub width: u32,
    pub height: u32,
}

impl Window {
    /// The smaller of width and height.
    pub open spec fn spec_shorter_side(&self) -> u32 {
        if self.width <= self.height {
            self.width
        } else {
            self.height
        }
    }

    /// The smaller of width and height.
    #[verifier::when_used_as_spec(spec_shorter_side)]
    pub fn shorter_side(&self) -> (side: u32)
        ensures
            side == self.spec_shorter_side(),
            side <= self.width,
            side <= self.height,
            side == self.width || side == self.height,
    {
        if self.width <= self.height {
            self.width
        } else {
            self.height
        }
    }
}

} // verus!
