//! Axes of rotation.

use vstd::prelude::*;

verus! {

/// One of the three axes of a rotation's own frame.
#[derive(Debug, Clone, Copy, PartialEq, Eq, Structural)]
pub enum PrimaryAxis {
    X,
    Y,
    Z,
}

} // verus!
