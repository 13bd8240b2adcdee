//! Style records: how a node is sized by its parent and how it arranges its children.

use vstd::prelude::*;
use crate::fixed::Fixed;

verus! {

/// The axis along which a flex container lines up its children.
#[derive(Debug, Clone, Copy, PartialEq, Eq, Structural)]
pub enum FlexDirection {
    Row,
    Column,
}

/// How a node lays out its children.
///
/// A `Hidden` node takes no space, and neither does anything below it.
#[derive(Debug, Clone, Copy, PartialEq, Eq, Structural)]
pub enum Display {
    Flex { flex_direction: FlexDirection },
    Block,
    Hidden,
}

/// How a flex container spreads leftover space along its main axis.
#[derive(Debug, Clone, Copy, PartialEq, Eq, Structural)]
pub enum JustifyContent {
    Start,
    Center,
    End,
    SpaceBetween,
    SpaceAround,
    SpaceEvenly,
}

/// How a flex container places its children on its cross axis.
#[derive(Debug, Clone, Copy, PartialEq, Eq, Structural)]
pub enum AlignItems {
    Start,
    Center,
    End,
    Stretch,
}

/// A length expression.
///
/// `Percent` is taken of the containing block, `Vw` and `Vh` of the
/// viewport; `Add` and `Sub` combine two expressions.
#[derive(Debug)]
pub enum Length {
    Px(Fixed),
    Percent(Fixed),
    Vw(Fixed),
    Vh(Fixed),
    Auto,
    Add(Box<Length>, Box<Length>),
    Sub(Box<Length>, Box<Length>),
}

impl Length {
    /// The value of this expression against a containing dimension, which
    /// may be indefinite, and a viewport dimension; `None` is indefinite.
    pub open spec fn spec_resolve_with(&self, containing_block: Option<Fixed>, viewport: Fixed) -> Option<Fixed>
        decreases self,
    {
        match *self {
            Length::Auto => None,
            Length::Px(v) => Some(v),
            Length::Percent(p) => match containing_block {
                Some(cb) => Some(cb.percent(p)),
                None => None,
            },
            Length::Vw(v) => Some(viewport.percent(v)),
            Length::Vh(v) => Some(viewport.percent(v)),
            Length::Add(a, b) => match (
                a.spec_resolve_with(containing_block, viewport),
                b.spec_resolve_with(containing_block, viewport),
            ) {
                (Some(x), Some(y)) => Some(x.saturating_add(y)),
                _ => None,
            },
            Length::Sub(a, b) => match (
                a.spec_resolve_with(containing_block, viewport),
                b.spec_resolve_with(containing_block, viewport),
            ) {
                (Some(x), Some(y)) => Some(x.saturating_sub(y)),
                _ => None,
            },
        }
    }

    /// Resolves this expression to a number, or to `None` where it is
    /// indefinite: `Auto`, a percentage of an indefinite containing block,
    /// or a sum or difference with an indefinite operand.
    #[verifier::when_used_as_spec(spec_resolve_with)]
    pub fn resolve_with(&self, containing_block: Option<Fixed>, viewport: Fixed) -> (r: Option<Fixed>)
        ensures
            r == self.resolve_with(containing_block, viewport),
        decreases self,
    {
        match self {
            Length::Auto => None,
            Length::Px(v) => Some(*v),
            Length::Percent(p) => match containing_block {
                Some(cb) => Some(cb.percent(*p)),
                None => None,
            },
            Length::Vw(v) => Some(viewport.percent(*v)),
            Length::Vh(v) => Some(viewport.percent(*v)),
            Length::Add(a, b) => {
                let left = a.resolve_with(containing_block, viewport);
                let right = b.resolve_with(containing_block, viewport);
                match (left, right) {
                    (Some(x), Some(y)) => Some(x.saturating_add(y)),
                    _ => None,
                }
            },
            Length::Sub(a, b) => {
                let left = a.resolve_with(containing_block, viewport);
                let right = b.resolve_with(containing_block, viewport);
                match (left, right) {
                    (Some(x), Some(y)) => Some(x.saturating_sub(y)),
                    _ => None,
                }
            },
        }
    }

    /// The resolved value, with zero standing in for an indefinite one.
    pub open spec fn spec_resolve_or_zero(&self, containing_block: Option<Fixed>, viewport: Fixed) -> Fixed {
        match self.spec_resolve_with(containing_block, viewport) {
            Some(v) => v,
            None => Fixed::zero(),
        }
    }

    /// Resolves this expression, taking an indefinite result as zero.
    #[verifier::when_used_as_spec(spec_resolve_or_zero)]
    pub fn resolve_or_zero(&self, containing_block: Option<Fixed>, viewport: Fixed) -> (r: Fixed)
        ensures
            r == self.resolve_or_zero(containing_block, viewport),
    {
        match self.resolve_with(containing_block, viewport) {
            Some(v) => v,
            None => Fixed::zero(),
        }
    }
}

/// How a node behaves as an item of a flex container.
#[derive(Debug, Clone)]
pub struct ItemStyle {
    pub flex_grow: Fixed,
    pub flex_basis: Length,
    pub align_self: Option<AlignItems>,
}

/// The sizes a node asks for, and the bounds it sets on them.
#[derive(Debug, Clone)]
pub struct SizeStyle {
    pub width: Length,
    pub height: Length,
    pub min_width: Length,
    pub max_width: Length,
    pub min_height: Length,
    pub max_height: Length,
}

/// Margin and padding on each of the four sides.
#[derive(Debug, Clone)]
pub struct Spacing {
    pub margin_top: Length,
    pub margin_bottom: Length,
    pub margin_left: Length,
    pub margin_right: Length,
    pub padding_top: Length,
    pub padding_bottom: Length,
    pub padding_left: Length,
    pub padding_right: Length,
}

/// Everything that decides the geometry of one node.
#[derive(Debug, Clone)]
pub struct Style {
    pub display: Display,
    pub item_style: ItemStyle,
    pub size: SizeStyle,
    pub spacing: Spacing,
    pub justify_content: JustifyContent,
    pub align_items: AlignItems,
    pub column_gap: Length,
    pub row_gap: Length,
}

impl Default for FlexDirection {
    fn default() -> (r: FlexDirection)
        ensures
            r == FlexDirection::Column,
    {
        FlexDirection::Column
    }
}

impl Default for Display {
    fn default() -> (r: Display)
        ensures
            r == Display::Block,
    {
        Display::Block
    }
}

impl Default for JustifyContent {
    fn default() -> (r: JustifyContent)
        ensures
            r == JustifyContent::Start,
    {
        JustifyContent::Start
    }
}

impl Default for AlignItems {
    fn default() -> (r: AlignItems)
        ensures
            r == AlignItems::Stretch,
    {
        AlignItems::Stretch
    }
}

impl Clone for Length {
    fn clone(&self) -> (r: Length)
        ensures
            r == *self,
        decreases self,
    {
        match self {
            Length::Px(v) => Length::Px(*v),
            Length::Percent(p) => Length::Percent(*p),
            Length::Vw(v) => Length::Vw(*v),
            Length::Vh(v) => Length::Vh(*v),
            Length::Auto => Length::Auto,
            Length::Add(a, b) => Length::Add(Box::new((&**a).clone()), Box::new((&**b).clone())),
            Length::Sub(a, b) => Length::Sub(Box::new((&**a).clone()), Box::new((&**b).clone())),
        }
    }
}

impl std::ops::Add for Length {
    type Output = Length;

    /// The sum of two expressions, as an expression.
    fn add(self, rhs: Length) -> (r: Length) {
        Length::Add(Box::new(self), Box::new(rhs))
    }
}

impl vstd::std_specs::ops::AddSpecImpl for Length {
    open spec fn obeys_add_spec() -> bool {
        true
    }

    open spec fn add_req(self, rhs: Length) -> bool {
        true
    }

    open spec fn add_spec(self, rhs: Length) -> Length {
        Length::Add(Box::new(self), Box::new(rhs))
    }
}

impl std::ops::Sub for Length {
    type Output = Length;

    /// The difference of two expressions, as an expression.
    fn sub(self, rhs: Length) -> (r: Length) {
        Length::Sub(Box::new(self), Box::new(rhs))
    }
}

impl vstd::std_specs::ops::SubSpecImpl for Length {
    open spec fn obeys_sub_spec() -> bool {
        true
    }

    open spec fn sub_req(self, rhs: Length) -> bool {
        true
    }

    open spec fn sub_spec(self, rhs: Length) -> Length {
        Length::Sub(Box::new(self), Box::new(rhs))
    }
}

impl Default for Length {
    fn default() -> (r: Length)
        ensures
            r == Length::Px(Fixed::zero()),
    {
        Length::Px(Fixed::zero())
    }
}

impl ItemStyle {
    /// An item that does not grow, has no basis of its own and follows its
    /// container's alignment.
    pub open spec fn spec_default() -> ItemStyle {
        ItemStyle { flex_grow: Fixed::zero(), flex_basis: Length::Auto, align_self: None }
    }
}

impl Default for ItemStyle {
    fn default() -> (r: ItemStyle)
        ensures
            r == ItemStyle::spec_default(),
    {
        ItemStyle { flex_grow: Fixed::zero(), flex_basis: Length::Auto, align_self: None }
    }
}

impl SizeStyle {
    /// Every size and bound left to the layout.
    pub open spec fn spec_default() -> SizeStyle {
        SizeStyle {
            width: Length::Auto,
            height: Length::Auto,
            min_width: Length::Auto,
            max_width: Length::Auto,
            min_height: Length::Auto,
            max_height: Length::Auto,
        }
    }
}

impl Default for SizeStyle {
    fn default() -> (r: SizeStyle)
        ensures
            r == SizeStyle::spec_default(),
    {
        SizeStyle {
            width: Length::Auto,
            height: Length::Auto,
            min_width: Length::Auto,
            max_width: Length::Auto,
            min_height: Length::Auto,
            max_height: Length::Auto,
        }
    }
}

impl Spacing {
    /// No margin and no padding.
    pub open spec fn spec_default() -> Spacing {
        Spacing {
            margin_top: Length::Px(Fixed::zero()),
            margin_bottom: Length::Px(Fixed::zero()),
            margin_left: Length::Px(Fixed::zero()),
            margin_right: Length::Px(Fixed::zero()),
            padding_top: Length::Px(Fixed::zero()),
            padding_bottom: Length::Px(Fixed::zero()),
            padding_left: Length::Px(Fixed::zero()),
            padding_right: Length::Px(Fixed::zero()),
        }
    }
}

impl Default for Spacing {
    fn default() -> (r: Spacing)
        ensures
            r == Spacing::spec_default(),
    {
        Spacing {
            margin_top: Length::Px(Fixed::zero()),
            margin_bottom: Length::Px(Fixed::zero()),
            margin_left: Length::Px(Fixed::zero()),
            margin_right: Length::Px(Fixed::zero()),
            padding_top: Length::Px(Fixed::zero()),
            padding_bottom: Length::Px(Fixed::zero()),
            padding_left: Length::Px(Fixed::zero()),
            padding_right: Length::Px(Fixed::zero()),
        }
    }
}

impl Style {
    /// A block with no size of its own, no spacing and no gaps.
    pub open spec fn spec_default() -> Style {
        Style {
            display: Display::Block,
            item_style: ItemStyle::spec_default(),
            size: SizeStyle::spec_default(),
            spacing: Spacing::spec_default(),
            justify_content: JustifyContent::Start,
            align_items: AlignItems::Stretch,
            column_gap: Length::Px(Fixed::zero()),
            row_gap: Length::Px(Fixed::zero()),
        }
    }
}

impl Default for Style {
    fn default() -> (r: Style)
        ensures
            r == Style::spec_default(),
    {
        Style {
            display: Display::Block,
            item_style: ItemStyle { flex_grow: Fixed::zero(), flex_basis: Length::Auto, align_self: None },
            size: SizeStyle {
                width: Length::Auto,
                height: Length::Auto,
                min_width: Length::Auto,
                max_width: Length::Auto,
                min_height: Length::Auto,
                max_height: Length::Auto,
            },
            spacing: Spacing {
                margin_top: Length::Px(Fixed::zero()),
                margin_bottom: Length::Px(Fixed::zero()),
                margin_left: Length::Px(Fixed::zero()),
                margin_right: Length::Px(Fixed::zero()),
                padding_top: Length::Px(Fixed::zero()),
                padding_bottom: Length::Px(Fixed::zero()),
                padding_left: Length::Px(Fixed::zero()),
                padding_right: Length::Px(Fixed::zero()),
            },
            justify_content: JustifyContent::Start,
            align_items: AlignItems::Stretch,
            column_gap: Length::Px(Fixed::zero()),
            row_gap: Length::Px(Fixed::zero()),
        }
    }
}

/// A pixel length is the same against every containing block and viewport.
pub proof fn lemma_px_is_invariant(v: Fixed, containing_block: Option<Fixed>, viewport: Fixed)
    ensures
        Length::Px(v).resolve_with(containing_block, viewport) == Some(v),
{
}

/// A percentage of an indefinite containing block is indefinite.
pub proof fn lemma_percent_of_indefinite(p: Fixed, viewport: Fixed)
    ensures
        Length::Percent(p).resolve_with(None, viewport) is None,
{
}

/// `Auto` is indefinite against every containing block and viewport.
pub proof fn lemma_auto_is_indefinite(containing_block: Option<Fixed>, viewport: Fixed)
    ensures
        Length::Auto.resolve_with(containing_block, viewport) is None,
{
}

/// A sum or a difference is definite exactly when both operands are: an
/// indefinite operand on either side makes the whole indefinite.
pub proof fn lemma_calc_definite(a: Length, b: Length, containing_block: Option<Fixed>, viewport: Fixed)
    ensures
        Length::Add(Box::new(a), Box::new(b)).resolve_with(containing_block, viewport) is Some <==> (
        a.resolve_with(containing_block, viewport) is Some && b.resolve_with(containing_block, viewport)
            is Some),
        Length::Sub(Box::new(a), Box::new(b)).resolve_with(containing_block, viewport) is Some <==> (
        a.resolve_with(containing_block, viewport) is Some && b.resolve_with(containing_block, viewport)
            is Some),
{
    reveal_with_fuel(Length::spec_resolve_with, 2);
}

/// A sum with `Auto` is indefinite whatever the containing block is.
pub proof fn lemma_sum_with_auto(b: Length, containing_block: Option<Fixed>, viewport: Fixed)
    ensures
        Length::Add(Box::new(Length::Auto), Box::new(b)).resolve_with(containing_block, viewport) is None,
        Length::Add(Box::new(b), Box::new(Length::Auto)).resolve_with(containing_block, viewport) is None,
{
    reveal_with_fuel(Length::spec_resolve_with, 2);
}

/// The viewport units take a share of the viewport and are always definite.
pub proof fn lemma_viewport_units_definite(v: Fixed, containing_block: Option<Fixed>, viewport: Fixed)
    ensures
        Length::Vw(v).resolve_with(containing_block, viewport) == Some(viewport.percent(v)),
        Length::Vh(v).resolve_with(containing_block, viewport) == Some(viewport.percent(v)),
{
}

} // verus!
