//! Geometry primitives: what a layout writes into each node.

use vstd::prelude::*;
use crate::fixed::Fixed;

verus! {

/// A width and a height.
#[derive(Debug, Clone, Copy, PartialEq, Eq, Structural)]
pub struct Size {
    pub width: Fixed,
    pub height: Fixed,
}

/// A box: where its top-left corner lies and how large it is.
#[derive(Debug, Clone, Copy, PartialEq, Eq, Structural)]
pub struct Rect {
    pub x: Fixed,
    pub y: Fixed,
    pub width: Fixed,
    pub height: Fixed,
}

impl Size {
    pub open spec fn spec_zero() -> Size {
        Size { width: Fixed::zero(), height: Fixed::zero() }
    }
}

impl Rect {
    pub open spec fn spec_zero() -> Rect {
        Rect {
            x: Fixed::zero(),
            y: Fixed::zero(),
            width: Fixed::zero(),
            height: Fixed::zero(),
        }
    }

    /// The width and height of this box.
    pub open spec fn size(self) -> Size {
        Size { width: self.width, height: self.height }
    }

    /// The box of the given size whose corner lies at `(x, y)`.
    pub open spec fn at(x: Fixed, y: Fixed, size: Size) -> Rect {
        Rect { x, y, width: size.width, height: size.height }
    }
}

impl Default for Size {
    fn default() -> (r: Size)
        ensures
            r == Size::spec_zero(),
    {
        Size { width: Fixed::zero(), height: Fixed::zero() }
    }
}

impl Default for Rect {
    fn default() -> (r: Rect)
        ensures
            r == Rect::spec_zero(),
    {
        Rect { x: Fixed::zero(), y: Fixed::zero(), width: Fixed::zero(), height: Fixed::zero() }
    }
}

} // verus!
