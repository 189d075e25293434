//! The logic of a first-person camera, kept apart from any engine: the scene
//! it looks at, the mouse look that turns it, and the cursor grab that follows
//! window focus.
//!
//! Everything here works on integers. Angles are counted in nanoradians, time
//! in nanoseconds, hues in thousandths of a degree. A host program reads the
//! engine's values into these types, calls in, and writes the results back.

pub mod grab;
pub mod look;
pub mod scene;
pub mod window;
