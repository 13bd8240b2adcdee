//! The main and cross axes of a flex container, mapped onto width and height.

use vstd::prelude::*;
use crate::fixed::Fixed;
use crate::geometry::Rect;
use crate::geometry::Size;
use crate::style::Length;
use crate::style::SizeStyle;
use crate::style::Spacing;
use crate::style::Style;
use crate::style::FlexDirection;

verus! {

/// What a block starts from as an item of a row when it asks for no basis
/// and no width of its own: nothing, or the width it measures on its own.
#[derive(Debug, Clone, Copy, PartialEq, Eq, Structural)]
pub enum RowBlockBasis {
    Zero,
    Intrinsic,
}

impl Default for RowBlockBasis {
    fn default() -> (r: RowBlockBasis)
        ensures
            r == RowBlockBasis::Zero,
    {
        RowBlockBasis::Zero
    }
}

/// What a node is laid out against.
///
/// The containing block may be indefinite on either side; the viewport never
/// is. A forced size is the outer size, padding included, that the parent has
/// already settled for the node. The policy for blocks in rows is the same
/// throughout one layout.
#[derive(Debug, Clone, Copy, PartialEq, Eq, Structural)]
pub struct LayoutContext {
    pub containing_block_width: Option<Fixed>,
    pub containing_block_height: Option<Fixed>,
    pub viewport_width: Fixed,
    pub viewport_height: Fixed,
    pub forced_width: Option<Fixed>,
    pub forced_height: Option<Fixed>,
    pub row_block_basis: RowBlockBasis,
}

/// The direction of a flex container's main axis.
#[derive(Debug, Clone, Copy, PartialEq, Eq, Structural)]
pub enum Axis {
    Horizontal,
    Vertical,
}

impl LayoutContext {
    pub open spec fn spec_containing_block_main(self, axis: Axis) -> Option<Fixed> {
        match axis {
            Axis::Horizontal => self.containing_block_width,
            Axis::Vertical => self.containing_block_height,
        }
    }

    /// The containing block's extent along the main axis.
    pub fn containing_block_main(&self, axis: Axis) -> (r: Option<Fixed>)
        ensures
            r == self.spec_containing_block_main(axis),
    {
        match axis {
            Axis::Horizontal => self.containing_block_width,
            Axis::Vertical => self.containing_block_height,
        }
    }

    pub open spec fn spec_containing_block_cross(self, axis: Axis) -> Option<Fixed> {
        match axis {
            Axis::Horizontal => self.containing_block_height,
            Axis::Vertical => self.containing_block_width,
        }
    }

    /// The containing block's extent along the cross axis.
    pub fn containing_block_cross(&self, axis: Axis) -> (r: Option<Fixed>)
        ensures
            r == self.spec_containing_block_cross(axis),
    {
        match axis {
            Axis::Horizontal => self.containing_block_height,
            Axis::Vertical => self.containing_block_width,
        }
    }

    pub open spec fn spec_viewport_main(self, axis: Axis) -> Fixed {
        match axis {
            Axis::Horizontal => self.viewport_width,
            Axis::Vertical => self.viewport_height,
        }
    }

    /// The viewport's extent along the main axis.
    pub fn viewport_main(&self, axis: Axis) -> (r: Fixed)
        ensures
            r == self.spec_viewport_main(axis),
    {
        match axis {
            Axis::Horizontal => self.viewport_width,
            Axis::Vertical => self.viewport_height,
        }
    }

    pub open spec fn spec_viewport_cross(self, axis: Axis) -> Fixed {
        match axis {
            Axis::Horizontal => self.viewport_height,
            Axis::Vertical => self.viewport_width,
        }
    }

    /// The viewport's extent along the cross axis.
    pub fn viewport_cross(&self, axis: Axis) -> (r: Fixed)
        ensures
            r == self.spec_viewport_cross(axis),
    {
        match axis {
            Axis::Horizontal => self.viewport_height,
            Axis::Vertical => self.viewport_width,
        }
    }

    pub open spec fn spec_forced_main(self, axis: Axis) -> Option<Fixed> {
        match axis {
            Axis::Horizontal => self.forced_width,
            Axis::Vertical => self.forced_height,
        }
    }

    /// The forced outer size along the main axis, if the parent set one.
    pub fn forced_main(&self, axis: Axis) -> (r: Option<Fixed>)
        ensures
            r == self.spec_forced_main(axis),
    {
        match axis {
            Axis::Horizontal => self.forced_width,
            Axis::Vertical => self.forced_height,
        }
    }

    pub open spec fn spec_forced_cross(self, axis: Axis) -> Option<Fixed> {
        match axis {
            Axis::Horizontal => self.forced_height,
            Axis::Vertical => self.forced_width,
        }
    }

    /// The forced outer size along the cross axis, if the parent set one.
    pub fn forced_cross(&self, axis: Axis) -> (r: Option<Fixed>)
        ensures
            r == self.spec_forced_cross(axis),
    {
        match axis {
            Axis::Horizontal => self.forced_height,
            Axis::Vertical => self.forced_width,
        }
    }
}

impl Axis {
    pub open spec fn spec_of(direction: FlexDirection) -> Axis {
        match direction {
            FlexDirection::Row => Axis::Horizontal,
            FlexDirection::Column => Axis::Vertical,
        }
    }

    /// The main axis of a container with the given direction.
    pub fn of(direction: FlexDirection) -> (r: Axis)
        ensures
            r == Self::spec_of(direction),
    {
        match direction {
            FlexDirection::Row => Axis::Horizontal,
            FlexDirection::Column => Axis::Vertical,
        }
    }

    pub open spec fn spec_width_height<T>(self, main: T, cross: T) -> (T, T) {
        match self {
            Axis::Horizontal => (main, cross),
            Axis::Vertical => (cross, main),
        }
    }

    /// A main and a cross value, put in the order width, height.
    pub fn width_height<T>(&self, main: T, cross: T) -> (r: (T, T))
        ensures
            r == self.spec_width_height(main, cross),
    {
        match self {
            Axis::Horizontal => (main, cross),
            Axis::Vertical => (cross, main),
        }
    }

    pub open spec fn spec_main(self, r: Rect) -> Fixed {
        match self {
            Axis::Horizontal => r.width,
            Axis::Vertical => r.height,
        }
    }

    /// The extent of a box along the main axis.
    pub fn main(&self, r: &Rect) -> (v: Fixed)
        ensures
            v == self.spec_main(*r),
    {
        match self {
            Axis::Horizontal => r.width,
            Axis::Vertical => r.height,
        }
    }

    pub open spec fn spec_cross(self, r: Rect) -> Fixed {
        match self {
            Axis::Horizontal => r.height,
            Axis::Vertical => r.width,
        }
    }

    /// The extent of a box along the cross axis.
    pub fn cross(&self, r: &Rect) -> (v: Fixed)
        ensures
            v == self.spec_cross(*r),
    {
        match self {
            Axis::Horizontal => r.height,
            Axis::Vertical => r.width,
        }
    }

    /// The extent of a size along the main axis.
    pub open spec fn main_of(self, s: Size) -> Fixed {
        match self {
            Axis::Horizontal => s.width,
            Axis::Vertical => s.height,
        }
    }

    /// The extent of a size along the cross axis.
    pub open spec fn cross_of(self, s: Size) -> Fixed {
        match self {
            Axis::Horizontal => s.height,
            Axis::Vertical => s.width,
        }
    }

    /// The size with the given extents along the main and the cross axis.
    pub open spec fn size_of(self, main: Fixed, cross: Fixed) -> Size {
        match self {
            Axis::Horizontal => Size { width: main, height: cross },
            Axis::Vertical => Size { width: cross, height: main },
        }
    }

    pub open spec fn spec_size_main(self, s: SizeStyle) -> Length {
        match self {
            Axis::Horizontal => s.width,
            Axis::Vertical => s.height,
        }
    }

    /// The size asked for along the main axis.
    pub fn size_main<'a>(&self, s: &'a SizeStyle) -> (r: &'a Length)
        ensures
            *r == self.spec_size_main(*s),
    {
        match self {
            Axis::Horizontal => &s.width,
            Axis::Vertical => &s.height,
        }
    }

    pub open spec fn spec_size_cross(self, s: SizeStyle) -> Length {
        match self {
            Axis::Horizontal => s.height,
            Axis::Vertical => s.width,
        }
    }

    /// The size asked for along the cross axis.
    pub fn size_cross<'a>(&self, s: &'a SizeStyle) -> (r: &'a Length)
        ensures
            *r == self.spec_size_cross(*s),
    {
        match self {
            Axis::Horizontal => &s.height,
            Axis::Vertical => &s.width,
        }
    }

    pub open spec fn spec_min_main(self, s: SizeStyle) -> Length {
        match self {
            Axis::Horizontal => s.min_width,
            Axis::Vertical => s.min_height,
        }
    }

    /// The lower bound along the main axis.
    pub fn min_main<'a>(&self, s: &'a SizeStyle) -> (r: &'a Length)
        ensures
            *r == self.spec_min_main(*s),
    {
        match self {
            Axis::Horizontal => &s.min_width,
            Axis::Vertical => &s.min_height,
        }
    }

    pub open spec fn spec_max_main(self, s: SizeStyle) -> Length {
        match self {
            Axis::Horizontal => s.max_width,
            Axis::Vertical => s.max_height,
        }
    }

    /// The upper bound along the main axis.
    pub fn max_main<'a>(&self, s: &'a SizeStyle) -> (r: &'a Length)
        ensures
            *r == self.spec_max_main(*s),
    {
        match self {
            Axis::Horizontal => &s.max_width,
            Axis::Vertical => &s.max_height,
        }
    }

    pub open spec fn spec_min_cross(self, s: SizeStyle) -> Length {
        match self {
            Axis::Horizontal => s.min_height,
            Axis::Vertical => s.min_width,
        }
    }

    /// The lower bound along the cross axis.
    pub fn min_cross<'a>(&self, s: &'a SizeStyle) -> (r: &'a Length)
        ensures
            *r == self.spec_min_cross(*s),
    {
        match self {
            Axis::Horizontal => &s.min_height,
            Axis::Vertical => &s.min_width,
        }
    }

    pub open spec fn spec_max_cross(self, s: SizeStyle) -> Length {
        match self {
            Axis::Horizontal => s.max_height,
            Axis::Vertical => s.max_width,
        }
    }

    /// The upper bound along the cross axis.
    pub fn max_cross<'a>(&self, s: &'a SizeStyle) -> (r: &'a Length)
        ensures
            *r == self.spec_max_cross(*s),
    {
        match self {
            Axis::Horizontal => &s.max_height,
            Axis::Vertical => &s.max_width,
        }
    }

    pub open spec fn spec_padding_main(self, s: Spacing) -> (Length, Length) {
        match self {
            Axis::Horizontal => (s.padding_left, s.padding_right),
            Axis::Vertical => (s.padding_top, s.padding_bottom),
        }
    }

    /// The padding at the start and at the end of the main axis.
    pub fn padding_main<'a>(&self, s: &'a Spacing) -> (r: (&'a Length, &'a Length))
        ensures
            *r.0 == self.spec_padding_main(*s).0,
            *r.1 == self.spec_padding_main(*s).1,
    {
        match self {
            Axis::Horizontal => (&s.padding_left, &s.padding_right),
            Axis::Vertical => (&s.padding_top, &s.padding_bottom),
        }
    }

    pub open spec fn spec_padding_cross(self, s: Spacing) -> (Length, Length) {
        match self {
            Axis::Horizontal => (s.padding_top, s.padding_bottom),
            Axis::Vertical => (s.padding_left, s.padding_right),
        }
    }

    /// The padding at the start and at the end of the cross axis.
    pub fn padding_cross<'a>(&self, s: &'a Spacing) -> (r: (&'a Length, &'a Length))
        ensures
            *r.0 == self.spec_padding_cross(*s).0,
            *r.1 == self.spec_padding_cross(*s).1,
    {
        match self {
            Axis::Horizontal => (&s.padding_top, &s.padding_bottom),
            Axis::Vertical => (&s.padding_left, &s.padding_right),
        }
    }

    pub open spec fn spec_margin_main_start(self, s: Spacing) -> Length {
        match self {
            Axis::Horizontal => s.margin_left,
            Axis::Vertical => s.margin_top,
        }
    }

    /// The margin at the start of the main axis.
    pub fn margin_main_start<'a>(&self, s: &'a Spacing) -> (r: &'a Length)
        ensures
            *r == self.spec_margin_main_start(*s),
    {
        match self {
            Axis::Horizontal => &s.margin_left,
            Axis::Vertical => &s.margin_top,
        }
    }

    pub open spec fn spec_margin_main_end(self, s: Spacing) -> Length {
        match self {
            Axis::Horizontal => s.margin_right,
            Axis::Vertical => s.margin_bottom,
        }
    }

    /// The margin at the end of the main axis.
    pub fn margin_main_end<'a>(&self, s: &'a Spacing) -> (r: &'a Length)
        ensures
            *r == self.spec_margin_main_end(*s),
    {
        match self {
            Axis::Horizontal => &s.margin_right,
            Axis::Vertical => &s.margin_bottom,
        }
    }

    pub open spec fn spec_margin_cross_start(self, s: Spacing) -> Length {
        match self {
            Axis::Horizontal => s.margin_top,
            Axis::Vertical => s.margin_left,
        }
    }

    /// The margin at the start of the cross axis.
    pub fn margin_cross_start<'a>(&self, s: &'a Spacing) -> (r: &'a Length)
        ensures
            *r == self.spec_margin_cross_start(*s),
    {
        match self {
            Axis::Horizontal => &s.margin_top,
            Axis::Vertical => &s.margin_left,
        }
    }

    pub open spec fn spec_margin_cross_end(self, s: Spacing) -> Length {
        match self {
            Axis::Horizontal => s.margin_bottom,
            Axis::Vertical => s.margin_right,
        }
    }

    /// The margin at the end of the cross axis.
    pub fn margin_cross_end<'a>(&self, s: &'a Spacing) -> (r: &'a Length)
        ensures
            *r == self.spec_margin_cross_end(*s),
    {
        match self {
            Axis::Horizontal => &s.margin_bottom,
            Axis::Vertical => &s.margin_right,
        }
    }

    pub open spec fn spec_gap(self, style: Style) -> Length {
        match self {
            Axis::Horizontal => style.column_gap,
            Axis::Vertical => style.row_gap,
        }
    }

    /// The gap a container leaves between neighbours on its main axis.
    pub fn gap<'a>(&self, style: &'a Style) -> (r: &'a Length)
        ensures
            *r == self.spec_gap(*style),
    {
        match self {
            Axis::Horizontal => &style.column_gap,
            Axis::Vertical => &style.row_gap,
        }
    }
}

} // verus!
