use vstd::prelude::*;

verus! {

/// One immediate-mode drawing command. The host walks the list in order and
/// renders each command on its surface; positions and sizes are milli-pixels,
/// angles milliradians.
#[derive(Clone, Copy, PartialEq, Eq, Structural, Debug)]
pub enum DrawCmd {
    /// Begin a stroked closed polygon around a center, turned by `rotation`;
    /// the next `sides` commands are its vertices.
    Polygon { x: i64, y: i64, rotation: i64, sides: u8 },
    /// One polygon vertex: its distance from the polygon's center. Vertices
    /// are evenly spaced in angle around the full turn.
    Vertex { radius: i64 },
    /// The player's ship, with a thrust flame when `boosting`.
    Ship { x: i64, y: i64, heading: i64, boosting: bool },
    /// A flying saucer.
    Saucer { x: i64, y: i64 },
    /// An explosion flash that dims as `fade` runs down to zero.
    Flash { x: i64, y: i64, diameter: i64, fade: u32 },
    /// A laser dot.
    Spark { x: i64, y: i64 },
}

} // verus!
