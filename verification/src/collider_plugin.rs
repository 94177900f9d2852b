use vstd::prelude::*;

verus! {

/// The shapes that a collider can take.
#[derive(Debug, Clone, Copy, PartialEq, Eq, Structural)]
pub enum ColliderTypes {
    Circle,
    Square,
    Rectangle,
}

} // verus!
