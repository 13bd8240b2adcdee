//! Minimal CSS-like layout engine for UI frameworks.
//!
//! A tree of styled boxes goes in, pixel geometry comes out. Lengths are
//! fixed-point numbers with saturating arithmetic, so a layout is a pure
//! function of the styles and the viewport, the same on every machine.

pub mod axis;
pub mod block;
pub mod engine;
pub mod fixed;
pub mod flex;
pub mod flex_layout;
pub mod geometry;
pub mod laws;
pub mod model;
pub mod node;
pub mod style;

pub use axis::Axis;
pub use axis::LayoutContext;
pub use axis::RowBlockBasis;
pub use engine::LayoutEngine;
pub use fixed::Fixed;
pub use fixed::SCALE;
pub use flex::FlexItem;
pub use geometry::Rect;
pub use geometry::Size;
pub use node::LayoutNode;
pub use node::RectTree;
pub use node::SizeTree;
pub use node::StyleTree;
pub use style::AlignItems;
pub use style::Display;
pub use style::FlexDirection;
pub use style::ItemStyle;
pub use style::JustifyContent;
pub use style::Length;
pub use style::SizeStyle;
pub use style::Spacing;
pub use style::Style;
