//! What a layout is: the geometry of a tree as a function of its styles.
//!
//! Sizes come first. `measure` gives the size of one box against a context,
//! and `size_tree` the sizes of a whole tree. Positions follow: `place` turns
//! a tree of sizes into a tree of boxes. `layout_rects` puts the two together
//! for a root that fills the viewport.

use vstd::prelude::*;
use crate::axis::Axis;
use crate::axis::LayoutContext;
use crate::axis::RowBlockBasis;
use crate::fixed::Fixed;
use crate::flex::spec_clamp;
use crate::flex::spec_distribute;
use crate::flex::spec_resolve_align_position;
use crate::flex::spec_resolve_justify_content;
use crate::flex::FlexItem;
use crate::flex::MAX_ROUNDS;
use crate::geometry::Rect;
use crate::geometry::Size;
use crate::node::RectTree;
use crate::node::SizeTree;
use crate::node::StyleTree;
use crate::style::AlignItems;
use crate::style::Display;
use crate::style::Spacing;
use crate::style::Style;

verus! {

/// Padding resolved to numbers, an indefinite one counting as zero.
#[derive(Debug, Clone, Copy, PartialEq, Eq, Structural)]
pub struct Padding {
    pub left: Fixed,
    pub right: Fixed,
    pub top: Fixed,
    pub bottom: Fixed,
}

/// The padding of a box: left and right against the width of the containing
/// block, top and bottom against its height.
pub open spec fn padding(s: Spacing, ctx: LayoutContext) -> Padding {
    Padding {
        left: s.padding_left.resolve_or_zero(ctx.containing_block_width, ctx.viewport_width),
        right: s.padding_right.resolve_or_zero(ctx.containing_block_width, ctx.viewport_width),
        top: s.padding_top.resolve_or_zero(ctx.containing_block_height, ctx.viewport_height),
        bottom: s.padding_bottom.resolve_or_zero(ctx.containing_block_height, ctx.viewport_height),
    }
}

/// The context of the root: the viewport is its containing block and its
/// forced size.
pub open spec fn root_context_with(width: Fixed, height: Fixed, basis: RowBlockBasis) -> LayoutContext {
    LayoutContext {
        containing_block_width: Some(width),
        containing_block_height: Some(height),
        viewport_width: width,
        viewport_height: height,
        forced_width: Some(width),
        forced_height: Some(height),
        row_block_basis: basis,
    }
}

/// The context of the root under the usual policy, by which a block in a
/// row starts from nothing.
pub open spec fn root_context(width: Fixed, height: Fixed) -> LayoutContext {
    root_context_with(width, height, RowBlockBasis::Zero)
}

/// An outer size less the padding on both sides, but not less than nothing.
pub open spec fn inner_extent(outer: Fixed, start: Fixed, end: Fixed) -> Fixed {
    outer.saturating_sub(start).saturating_sub(end).non_negative()
}

/// A content size with the padding on both sides, but not less than nothing.
pub open spec fn outer_extent(content: Fixed, start: Fixed, end: Fixed) -> Fixed {
    content.saturating_add(start).saturating_add(end).non_negative()
}

/// The value of an option, or zero.
pub open spec fn or_zero(v: Option<Fixed>) -> Fixed {
    match v {
        Some(x) => x,
        None => Fixed::zero(),
    }
}

// ----------------------------------------------------------------------
// Block containers: sizes
// ----------------------------------------------------------------------

/// The content width of a block: the width it asks for, else the forced
/// width less its padding, else what the containing block leaves after
/// margins and padding, else indefinite.
pub open spec fn block_content_width(style: Style, ctx: LayoutContext) -> Option<Fixed> {
    let p = padding(style.spacing, ctx);
    let cbw = ctx.containing_block_width;
    let vw = ctx.viewport_width;
    match style.size.width.resolve_with(cbw, vw) {
        Some(w) => Some(w),
        None => match ctx.forced_width {
            Some(f) => Some(inner_extent(f, p.left, p.right)),
            None => match cbw {
                Some(c) => Some(
                    inner_extent(
                        c.saturating_sub(style.spacing.margin_left.resolve_or_zero(cbw, vw)).saturating_sub(
                            style.spacing.margin_right.resolve_or_zero(cbw, vw),
                        ),
                        p.left,
                        p.right,
                    ),
                ),
                None => None,
            },
        },
    }
}

/// The content height of a block: the height it asks for, else the forced
/// height less its padding, else indefinite.
pub open spec fn block_content_height(style: Style, ctx: LayoutContext) -> Option<Fixed> {
    let p = padding(style.spacing, ctx);
    match style.size.height.resolve_with(ctx.containing_block_height, ctx.viewport_height) {
        Some(h) => Some(h),
        None => match ctx.forced_height {
            Some(f) => Some(inner_extent(f, p.top, p.bottom)),
            None => None,
        },
    }
}

/// The context in which a block lays out a child: its content box is the
/// containing block, and the width left after the child's margins is forced
/// on the child where all three are definite.
pub open spec fn block_child_context(
    content_width: Option<Fixed>,
    content_height: Option<Fixed>,
    ctx: LayoutContext,
    child: Style,
) -> LayoutContext {
    let ml = child.spacing.margin_left.resolve_with(content_width, ctx.viewport_width);
    let mr = child.spacing.margin_right.resolve_with(content_width, ctx.viewport_width);
    LayoutContext {
        containing_block_width: content_width,
        containing_block_height: content_height,
        viewport_width: ctx.viewport_width,
        viewport_height: ctx.viewport_height,
        forced_width: match (content_width, ml, mr) {
            (Some(w), Some(l), Some(r)) => Some(
                w.saturating_sub(l).saturating_sub(r).non_negative(),
            ),
            _ => None,
        },
        forced_height: None,
        row_block_basis: ctx.row_block_basis,
    }
}

/// The height of a block's child with its top and bottom margins.
pub open spec fn block_outer_height(child: Style, size: Size, content_height: Option<Fixed>, ctx: LayoutContext) -> Fixed {
    size.height.saturating_add(
        child.spacing.margin_top.resolve_or_zero(content_height, ctx.viewport_height),
    ).saturating_add(child.spacing.margin_bottom.resolve_or_zero(content_height, ctx.viewport_height))
}

/// The width of a block's child with its left and right margins.
pub open spec fn block_outer_width(child: Style, size: Size, content_width: Option<Fixed>, ctx: LayoutContext) -> Fixed {
    size.width.saturating_add(
        child.spacing.margin_left.resolve_or_zero(content_width, ctx.viewport_width),
    ).saturating_add(child.spacing.margin_right.resolve_or_zero(content_width, ctx.viewport_width))
}

/// The outer heights of the first `n` children, added up in order.
pub open spec fn block_total_height(
    kids: Seq<StyleTree>,
    sizes: Seq<Size>,
    content_height: Option<Fixed>,
    ctx: LayoutContext,
    n: int,
) -> Fixed
    decreases n,
{
    if n <= 0 {
        Fixed::zero()
    } else {
        block_total_height(kids, sizes, content_height, ctx, n - 1).saturating_add(
            block_outer_height(kids[n - 1].style, sizes[n - 1], content_height, ctx),
        )
    }
}

/// The largest outer width among the first `n` children, or zero.
pub open spec fn block_max_width(
    kids: Seq<StyleTree>,
    sizes: Seq<Size>,
    content_width: Option<Fixed>,
    ctx: LayoutContext,
    n: int,
) -> Fixed
    decreases n,
{
    if n <= 0 {
        Fixed::zero()
    } else {
        block_max_width(kids, sizes, content_width, ctx, n - 1).at_least(
            block_outer_width(kids[n - 1].style, sizes[n - 1], content_width, ctx),
        )
    }
}

/// The size of a block whose children have the given sizes.
///
/// A definite content width or height stands; an indefinite width is the
/// largest outer width of the children, an indefinite height the sum of
/// their outer heights. Each is held between its bounds, and the padding is
/// added.
pub open spec fn block_size(style: Style, ctx: LayoutContext, kids: Seq<StyleTree>, sizes: Seq<Size>) -> Size {
    let p = padding(style.spacing, ctx);
    let cbw = ctx.containing_block_width;
    let cbh = ctx.containing_block_height;
    let vw = ctx.viewport_width;
    let vh = ctx.viewport_height;
    let content_width = block_content_width(style, ctx);
    let content_height = block_content_height(style, ctx);
    let computed_width = match content_width {
        Some(w) => w,
        None => block_max_width(kids, sizes, content_width, ctx, kids.len() as int),
    };
    let computed_height = match content_height {
        Some(h) => h,
        None => block_total_height(kids, sizes, content_height, ctx, kids.len() as int),
    };
    let final_width = spec_clamp(
        computed_width,
        style.size.min_width.resolve_with(cbw, vw),
        style.size.max_width.resolve_with(cbw, vw),
    );
    let final_height = spec_clamp(
        computed_height,
        style.size.min_height.resolve_with(cbh, vh),
        style.size.max_height.resolve_with(cbh, vh),
    );
    Size {
        width: outer_extent(final_width, p.left, p.right),
        height: outer_extent(final_height, p.top, p.bottom),
    }
}

// ----------------------------------------------------------------------
// Flex containers: sizes
// ----------------------------------------------------------------------

/// The content size of a flex container along its main axis: the size it
/// asks for, else the forced size less its padding, else indefinite.
pub open spec fn flex_own_main(style: Style, axis: Axis, ctx: LayoutContext) -> Option<Fixed> {
    let cbm = ctx.spec_containing_block_main(axis);
    let vm = ctx.spec_viewport_main(axis);
    let pad = axis.spec_padding_main(style.spacing);
    match axis.spec_size_main(style.size).resolve_with(cbm, vm) {
        Some(v) => Some(v),
        None => match ctx.spec_forced_main(axis) {
            Some(f) => Some(inner_extent(f, pad.0.resolve_or_zero(cbm, vm), pad.1.resolve_or_zero(cbm, vm))),
            None => None,
        },
    }
}

/// The content size of a flex container along its cross axis.
pub open spec fn flex_own_cross(style: Style, axis: Axis, ctx: LayoutContext) -> Option<Fixed> {
    let cbc = ctx.spec_containing_block_cross(axis);
    let vc = ctx.spec_viewport_cross(axis);
    let pad = axis.spec_padding_cross(style.spacing);
    match axis.spec_size_cross(style.size).resolve_with(cbc, vc) {
        Some(v) => Some(v),
        None => match ctx.spec_forced_cross(axis) {
            Some(f) => Some(inner_extent(f, pad.0.resolve_or_zero(cbc, vc), pad.1.resolve_or_zero(cbc, vc))),
            None => None,
        },
    }
}

/// The context in which a flex container measures its children: its content
/// box is the containing block, and nothing is forced.
pub open spec fn flex_inner_context(style: Style, axis: Axis, ctx: LayoutContext) -> LayoutContext {
    let wh = axis.spec_width_height(flex_own_main(style, axis, ctx), flex_own_cross(style, axis, ctx));
    LayoutContext {
        containing_block_width: wh.0,
        containing_block_height: wh.1,
        viewport_width: ctx.viewport_width,
        viewport_height: ctx.viewport_height,
        forced_width: None,
        forced_height: None,
        row_block_basis: ctx.row_block_basis,
    }
}

/// The padding of a flex item along the main axis, start and end added.
pub open spec fn item_main_padding(child: Style, axis: Axis, inner: LayoutContext) -> Fixed {
    let cbm = inner.spec_containing_block_main(axis);
    let vm = inner.spec_viewport_main(axis);
    let pad = axis.spec_padding_main(child.spacing);
    pad.0.resolve_or_zero(cbm, vm).saturating_add(pad.1.resolve_or_zero(cbm, vm))
}

/// The margins of a flex item along the main axis, start and end added.
pub open spec fn item_main_margin(child: Style, axis: Axis, inner: LayoutContext) -> Fixed {
    let cbm = inner.spec_containing_block_main(axis);
    let vm = inner.spec_viewport_main(axis);
    axis.spec_margin_main_start(child.spacing).resolve_or_zero(cbm, vm).saturating_add(
        axis.spec_margin_main_end(child.spacing).resolve_or_zero(cbm, vm),
    )
}

/// The margins of a flex item along the cross axis, start and end added.
pub open spec fn item_cross_margin(child: Style, axis: Axis, inner: LayoutContext) -> Fixed {
    let cbc = inner.spec_containing_block_cross(axis);
    let vc = inner.spec_viewport_cross(axis);
    axis.spec_margin_cross_start(child.spacing).resolve_or_zero(cbc, vc).saturating_add(
        axis.spec_margin_cross_end(child.spacing).resolve_or_zero(cbc, vc),
    )
}

/// A flex item before any space is shared out.
///
/// Its content size is its basis where that is definite; else the main size
/// it asks for, and then it is frozen; else nothing for a block in a row,
/// unless the policy is to take what it measures; else its measured size
/// less its padding.
pub open spec fn flex_item(child: Style, measured: Size, axis: Axis, inner: LayoutContext) -> FlexItem {
    let cbm = inner.spec_containing_block_main(axis);
    let vm = inner.spec_viewport_main(axis);
    let pad = axis.spec_padding_main(child.spacing);
    let min = axis.spec_min_main(child.size).resolve_with(cbm, vm);
    let max = axis.spec_max_main(child.size).resolve_with(cbm, vm);
    let grow = child.item_style.flex_grow;
    match child.item_style.flex_basis.resolve_with(cbm, vm) {
        Some(v) => FlexItem { size: v, grow, min, max, frozen: false },
        None => match axis.spec_size_main(child.size).resolve_with(cbm, vm) {
            Some(v) => FlexItem { size: v, grow, min, max, frozen: true },
            None => if child.display == Display::Block && axis == Axis::Horizontal && inner.row_block_basis
                == RowBlockBasis::Zero {
                FlexItem { size: Fixed::zero(), grow, min, max, frozen: false }
            } else {
                FlexItem {
                    size: axis.main_of(measured).saturating_sub(
                        pad.0.resolve_or_zero(cbm, vm),
                    ).saturating_sub(pad.1.resolve_or_zero(cbm, vm)),
                    grow,
                    min,
                    max,
                    frozen: false,
                }
            },
        },
    }
}

/// The flex items of the children of a container.
pub open spec fn flex_items(kids: Seq<StyleTree>, sizes: Seq<Size>, axis: Axis, inner: LayoutContext) -> Seq<FlexItem> {
    Seq::new(kids.len(), |i: int| flex_item(kids[i].style, sizes[i], axis, inner))
}

/// The outer cross size of a flex item: the cross size it asks for with its
/// padding, else its measured cross size; and its margins.
pub open spec fn item_outer_cross(child: Style, measured: Size, axis: Axis, inner: LayoutContext) -> Fixed {
    let cbc = inner.spec_containing_block_cross(axis);
    let vc = inner.spec_viewport_cross(axis);
    let pad = axis.spec_padding_cross(child.spacing);
    let cross_size = match axis.spec_size_cross(child.size).resolve_with(cbc, vc) {
        Some(v) => v.saturating_add(
            pad.0.resolve_or_zero(cbc, vc).saturating_add(pad.1.resolve_or_zero(cbc, vc)),
        ),
        None => axis.cross_of(measured),
    };
    cross_size.saturating_add(item_cross_margin(child, axis, inner))
}

/// The content sizes of the first `n` items, added up in order.
pub open spec fn sum_sizes(items: Seq<FlexItem>, n: int) -> Fixed
    decreases n,
{
    if n <= 0 {
        Fixed::zero()
    } else {
        sum_sizes(items, n - 1).saturating_add(items[n - 1].size)
    }
}

/// The main-axis padding of the first `n` children, added up in order.
pub open spec fn sum_main_padding(kids: Seq<StyleTree>, axis: Axis, inner: LayoutContext, n: int) -> Fixed
    decreases n,
{
    if n <= 0 {
        Fixed::zero()
    } else {
        sum_main_padding(kids, axis, inner, n - 1).saturating_add(item_main_padding(kids[n - 1].style, axis, inner))
    }
}

/// The main-axis margins of the first `n` children, added up in order.
pub open spec fn sum_main_margin(kids: Seq<StyleTree>, axis: Axis, inner: LayoutContext, n: int) -> Fixed
    decreases n,
{
    if n <= 0 {
        Fixed::zero()
    } else {
        sum_main_margin(kids, axis, inner, n - 1).saturating_add(item_main_margin(kids[n - 1].style, axis, inner))
    }
}

/// The largest outer cross size among the first `n` children, or zero.
pub open spec fn max_outer_cross(kids: Seq<StyleTree>, sizes: Seq<Size>, axis: Axis, inner: LayoutContext, n: int) -> Fixed
    decreases n,
{
    if n <= 0 {
        Fixed::zero()
    } else {
        max_outer_cross(kids, sizes, axis, inner, n - 1).at_least(
            item_outer_cross(kids[n - 1].style, sizes[n - 1], axis, inner),
        )
    }
}

/// The gap of a flex container, never negative.
pub open spec fn flex_gap(style: Style, axis: Axis, inner: LayoutContext) -> Fixed {
    axis.spec_gap(style).resolve_or_zero(
        inner.spec_containing_block_cross(axis),
        inner.spec_viewport_cross(axis),
    ).non_negative()
}

/// All the gaps between `count` items.
pub open spec fn flex_gaps(style: Style, axis: Axis, inner: LayoutContext, count: usize) -> Fixed {
    flex_gap(style, axis, inner).mul_count(if count > 0 { (count - 1) as usize } else { 0usize })
}

/// The space a flex container has to share out: what its content size leaves
/// after base sizes, gaps, padding and margins, or nothing where that size is
/// indefinite or too small.
pub open spec fn flex_free_space(style: Style, axis: Axis, inner: LayoutContext, kids: Seq<StyleTree>, sizes: Seq<Size>) -> Fixed {
    let n = kids.len() as int;
    match inner.spec_containing_block_main(axis) {
        Some(m) => m.saturating_sub(
            sum_sizes(flex_items(kids, sizes, axis, inner), n).saturating_add(
                flex_gaps(style, axis, inner, kids.len() as usize),
            ).saturating_add(sum_main_padding(kids, axis, inner, n)).saturating_add(
                sum_main_margin(kids, axis, inner, n),
            ),
        ).non_negative(),
        None => Fixed::zero(),
    }
}

/// The flex items once the free space has been shared out.
pub open spec fn flex_final_items(style: Style, axis: Axis, inner: LayoutContext, kids: Seq<StyleTree>, sizes: Seq<Size>) -> Seq<FlexItem> {
    spec_distribute(
        flex_items(kids, sizes, axis, inner),
        flex_free_space(style, axis, inner, kids, sizes),
        MAX_ROUNDS as nat,
    )
}

/// What the children of a flex container take up along the main axis: their
/// final sizes, margins, padding and the gaps.
pub open spec fn flex_content_main(style: Style, axis: Axis, inner: LayoutContext, kids: Seq<StyleTree>, sizes: Seq<Size>) -> Fixed {
    let n = kids.len() as int;
    sum_sizes(flex_final_items(style, axis, inner, kids, sizes), n).saturating_add(
        sum_main_margin(kids, axis, inner, n),
    ).saturating_add(sum_main_padding(kids, axis, inner, n)).saturating_add(
        flex_gaps(style, axis, inner, kids.len() as usize),
    )
}

/// The size of a flex container whose children measure the given sizes.
///
/// A definite content size stands; an indefinite main size is what the
/// children take up, an indefinite cross size the largest outer cross size
/// among them. Each is held between its bounds, and the padding is added.
pub open spec fn flex_size(style: Style, axis: Axis, ctx: LayoutContext, kids: Seq<StyleTree>, sizes: Seq<Size>) -> Size {
    let inner = flex_inner_context(style, axis, ctx);
    let cbm = ctx.spec_containing_block_main(axis);
    let vm = ctx.spec_viewport_main(axis);
    let cbc = ctx.spec_containing_block_cross(axis);
    let vc = ctx.spec_viewport_cross(axis);
    let pm = axis.spec_padding_main(style.spacing);
    let pc = axis.spec_padding_cross(style.spacing);
    let main = match flex_own_main(style, axis, ctx) {
        Some(v) => v,
        None => flex_content_main(style, axis, inner, kids, sizes),
    };
    let cross = match flex_own_cross(style, axis, ctx) {
        Some(v) => v,
        None => max_outer_cross(kids, sizes, axis, inner, kids.len() as int),
    };
    let final_main = spec_clamp(
        main,
        axis.spec_min_main(style.size).resolve_with(cbm, vm),
        axis.spec_max_main(style.size).resolve_with(cbm, vm),
    );
    let final_cross = spec_clamp(
        cross,
        axis.spec_min_cross(style.size).resolve_with(cbc, vc),
        axis.spec_max_cross(style.size).resolve_with(cbc, vc),
    );
    axis.size_of(
        outer_extent(final_main, pm.0.resolve_or_zero(cbm, vm), pm.1.resolve_or_zero(cbm, vm)),
        outer_extent(final_cross, pc.0.resolve_or_zero(cbc, vc), pc.1.resolve_or_zero(cbc, vc)),
    )
}

/// The alignment that holds for a child: its own, else its container's.
pub open spec fn effective_align(container: Style, child: Style) -> AlignItems {
    match child.item_style.align_self {
        Some(a) => a,
        None => container.align_items,
    }
}

/// The cross size forced on a stretched child: the container's content cross
/// size less the child's cross margins, where the child is stretched, asks
/// for no definite cross size, and the container's is definite.
pub open spec fn stretched_cross(container: Style, child: Style, axis: Axis, inner: LayoutContext) -> Option<Fixed> {
    let cbc = inner.spec_containing_block_cross(axis);
    let vc = inner.spec_viewport_cross(axis);
    if effective_align(container, child) == AlignItems::Stretch && axis.spec_size_cross(child.size).resolve_with(
        cbc,
        vc,
    ) is None {
        match cbc {
            Some(v) => Some(
                v.saturating_sub(
                    axis.spec_margin_cross_start(child.spacing).resolve_or_zero(cbc, vc),
                ).saturating_sub(axis.spec_margin_cross_end(child.spacing).resolve_or_zero(cbc, vc)),
            ),
            None => None,
        }
    } else {
        None
    }
}

/// The context in which a flex container lays out a child for good: the
/// child's share of the main axis, with its padding, is forced on it, and so
/// is the stretched cross size where there is one.
pub open spec fn flex_child_context(container: Style, child: Style, item: FlexItem, axis: Axis, inner: LayoutContext) -> LayoutContext {
    let cbm = inner.spec_containing_block_main(axis);
    let vm = inner.spec_viewport_main(axis);
    let pad = axis.spec_padding_main(child.spacing);
    let forced_main = Some(
        item.size.saturating_add(pad.0.resolve_or_zero(cbm, vm)).saturating_add(
            pad.1.resolve_or_zero(cbm, vm),
        ),
    );
    let wh = axis.spec_width_height(forced_main, stretched_cross(container, child, axis, inner));
    LayoutContext {
        containing_block_width: inner.containing_block_width,
        containing_block_height: inner.containing_block_height,
        viewport_width: inner.viewport_width,
        viewport_height: inner.viewport_height,
        forced_width: wh.0,
        forced_height: wh.1,
        row_block_basis: inner.row_block_basis,
    }
}

// ----------------------------------------------------------------------
// Sizes of a tree
// ----------------------------------------------------------------------

/// The sizes that the children of a block measure.
#[verifier::opaque]
pub open spec fn block_child_sizes(t: StyleTree, ctx: LayoutContext) -> Seq<Size>
    decreases t, 0nat,
{
    Seq::new(
        t.children.len(),
        |i: int|
            if 0 <= i < t.children.len() {
                measure(
                    t.children[i],
                    block_child_context(
                        block_content_width(t.style, ctx),
                        block_content_height(t.style, ctx),
                        ctx,
                        t.children[i].style,
                    ),
                )
            } else {
                arbitrary()
            },
    )
}

/// The sizes that the children of `t` measure in the context `inner`, as a
/// flex container measures them before any space is shared out.
#[verifier::opaque]
pub open spec fn measured_in(t: StyleTree, inner: LayoutContext) -> Seq<Size>
    decreases t, 0nat,
{
    Seq::new(
        t.children.len(),
        |i: int|
            if 0 <= i < t.children.len() {
                measure(t.children[i], inner)
            } else {
                arbitrary()
            },
    )
}

/// The size of the root box of `t` in the context `ctx`.
#[verifier::opaque]
pub open spec fn measure(t: StyleTree, ctx: LayoutContext) -> Size
    decreases t, 1nat,
{
    match t.style.display {
        Display::Hidden => Size::spec_zero(),
        Display::Block => block_size(t.style, ctx, t.children, block_child_sizes(t, ctx)),
        Display::Flex { flex_direction } => flex_size(
            t.style,
            Axis::spec_of(flex_direction),
            ctx,
            t.children,
            measured_in(t, flex_inner_context(t.style, Axis::spec_of(flex_direction), ctx)),
        ),
    }
}

/// The context in which the `i`-th child of `t` is laid out for good.
pub open spec fn child_context(t: StyleTree, ctx: LayoutContext, i: int) -> LayoutContext {
    match t.style.display {
        Display::Hidden => ctx,
        Display::Block => block_child_context(
            block_content_width(t.style, ctx),
            block_content_height(t.style, ctx),
            ctx,
            t.children[i].style,
        ),
        Display::Flex { flex_direction } => {
            let axis = Axis::spec_of(flex_direction);
            let inner = flex_inner_context(t.style, axis, ctx);
            flex_child_context(
                t.style,
                t.children[i].style,
                flex_final_items(t.style, axis, inner, t.children, measured_in(t, inner))[i],
                axis,
                inner,
            )
        },
    }
}

/// The sizes of all boxes of `t` in the context `ctx`. Everything below a
/// hidden box is empty.
#[verifier::opaque]
pub open spec fn size_tree(t: StyleTree, ctx: LayoutContext) -> SizeTree
    decreases t,
{
    SizeTree {
        size: measure(t, ctx),
        children: Seq::new(
            t.children.len(),
            |i: int|
                if 0 <= i < t.children.len() {
                    if t.style.display == Display::Hidden {
                        t.children[i].zero_sizes()
                    } else {
                        size_tree(t.children[i], child_context(t, ctx, i))
                    }
                } else {
                    arbitrary()
                },
        ),
    }
}

// ----------------------------------------------------------------------
// Positions
// ----------------------------------------------------------------------

/// The context in which the children of a box are placed: the box less its
/// padding is their containing block.
pub open spec fn position_child_context(style: Style, size: Size, ctx: LayoutContext) -> LayoutContext {
    let p = padding(style.spacing, ctx);
    LayoutContext {
        containing_block_width: Some(inner_extent(size.width, p.left, p.right)),
        containing_block_height: Some(inner_extent(size.height, p.top, p.bottom)),
        viewport_width: ctx.viewport_width,
        viewport_height: ctx.viewport_height,
        forced_width: None,
        forced_height: None,
        row_block_basis: ctx.row_block_basis,
    }
}

/// How far a block's child moves the cursor: its height with its top and
/// bottom margins.
pub open spec fn block_advance(child: Style, size: Size, inner: LayoutContext) -> Fixed {
    child.spacing.margin_top.resolve_or_zero(inner.containing_block_height, inner.viewport_height).saturating_add(
        size.height,
    ).saturating_add(
        child.spacing.margin_bottom.resolve_or_zero(inner.containing_block_height, inner.viewport_height),
    )
}

/// Where the outer box of the `i`-th child of a block begins, for a cursor
/// that starts at `start`.
pub open spec fn block_cursor(kids: Seq<StyleTree>, sizes: Seq<SizeTree>, inner: LayoutContext, start: Fixed, i: int) -> Fixed
    decreases i,
{
    if i <= 0 {
        start
    } else {
        block_cursor(kids, sizes, inner, start, i - 1).saturating_add(
            block_advance(kids[i - 1].style, sizes[i - 1].size, inner),
        )
    }
}

/// The corner of the `i`-th child of a block whose own corner is `(x, y)`:
/// left padding and left margin across, and down the stack with the top
/// margin.
pub open spec fn block_child_origin(
    style: Style,
    kids: Seq<StyleTree>,
    sizes: Seq<SizeTree>,
    x: Fixed,
    y: Fixed,
    ctx: LayoutContext,
    inner: LayoutContext,
    i: int,
) -> (Fixed, Fixed) {
    let p = padding(style.spacing, ctx);
    let child = kids[i].style;
    (
        x.saturating_add(p.left).saturating_add(
            child.spacing.margin_left.resolve_or_zero(inner.containing_block_width, inner.viewport_width),
        ),
        block_cursor(kids, sizes, inner, y.saturating_add(p.top), i).saturating_add(
            child.spacing.margin_top.resolve_or_zero(inner.containing_block_height, inner.viewport_height),
        ),
    )
}

/// The main size of a flex item with its margins.
pub open spec fn flex_outer_main(child: Style, size: Size, axis: Axis, inner: LayoutContext) -> Fixed {
    let cbm = inner.spec_containing_block_main(axis);
    let vm = inner.spec_viewport_main(axis);
    axis.main_of(size).saturating_add(
        axis.spec_margin_main_start(child.spacing).resolve_or_zero(cbm, vm),
    ).saturating_add(axis.spec_margin_main_end(child.spacing).resolve_or_zero(cbm, vm))
}

/// The outer main sizes of the first `n` children, added up in order.
pub open spec fn flex_total_main(kids: Seq<StyleTree>, sizes: Seq<SizeTree>, axis: Axis, inner: LayoutContext, n: int) -> Fixed
    decreases n,
{
    if n <= 0 {
        Fixed::zero()
    } else {
        flex_total_main(kids, sizes, axis, inner, n - 1).saturating_add(
            flex_outer_main(kids[n - 1].style, sizes[n - 1].size, axis, inner),
        )
    }
}

/// The space left on the main axis once the children and the gaps are in.
pub open spec fn flex_position_free(style: Style, kids: Seq<StyleTree>, sizes: Seq<SizeTree>, axis: Axis, inner: LayoutContext) -> Fixed {
    or_zero(inner.spec_containing_block_main(axis)).saturating_sub(
        flex_total_main(kids, sizes, axis, inner, kids.len() as int).saturating_add(
            flex_gaps(style, axis, inner, kids.len() as usize),
        ),
    ).non_negative()
}

/// How far a flex item moves the cursor past its start margin: its main
/// size, its end margin, the gap and the extra gap.
pub open spec fn flex_advance(child: Style, size: Size, axis: Axis, inner: LayoutContext, gap: Fixed, between: Fixed) -> Fixed {
    axis.main_of(size).saturating_add(
        axis.spec_margin_main_end(child.spacing).resolve_or_zero(
            inner.spec_containing_block_main(axis),
            inner.spec_viewport_main(axis),
        ),
    ).saturating_add(gap).saturating_add(between)
}

/// Where the outer box of the `i`-th flex item begins on the main axis, for
/// a cursor that starts at `start`.
pub open spec fn flex_cursor(
    kids: Seq<StyleTree>,
    sizes: Seq<SizeTree>,
    axis: Axis,
    inner: LayoutContext,
    gap: Fixed,
    between: Fixed,
    start: Fixed,
    i: int,
) -> Fixed
    decreases i,
{
    if i <= 0 {
        start
    } else {
        flex_cursor(kids, sizes, axis, inner, gap, between, start, i - 1).saturating_add(
            axis.spec_margin_main_start(kids[i - 1].style.spacing).resolve_or_zero(
                inner.spec_containing_block_main(axis),
                inner.spec_viewport_main(axis),
            ),
        ).saturating_add(flex_advance(kids[i - 1].style, sizes[i - 1].size, axis, inner, gap, between))
    }
}

/// Where the main-axis cursor of a flex container starts: its own corner,
/// the start offset of its justification and its padding.
pub open spec fn flex_cursor_start(style: Style, kids: Seq<StyleTree>, sizes: Seq<SizeTree>, axis: Axis, origin: Fixed, pad_start: Fixed, inner: LayoutContext) -> Fixed {
    origin.saturating_add(
        spec_resolve_justify_content(
            style.justify_content,
            flex_position_free(style, kids, sizes, axis, inner),
            kids.len() as usize,
        ).0.saturating_add(pad_start),
    )
}

/// Where a flex item lies on the cross axis: the container's corner, its
/// padding, the item's start margin, and the offset of its alignment for
/// its outer cross size within the container's inner cross size.
pub open spec fn flex_cross_position(container: Style, child: Style, size: Size, axis: Axis, origin: Fixed, pad_start: Fixed, inner: LayoutContext) -> Fixed {
    let cbc = inner.spec_containing_block_cross(axis);
    let vc = inner.spec_viewport_cross(axis);
    origin.saturating_add(pad_start).saturating_add(
        axis.spec_margin_cross_start(child.spacing).resolve_or_zero(cbc, vc),
    ).saturating_add(
        spec_resolve_align_position(
            effective_align(container, child),
            axis.cross_of(size).saturating_add(item_cross_margin(child, axis, inner)),
            or_zero(cbc),
        ),
    )
}

/// The corner of the `i`-th child of a flex container whose own corner is
/// `(x, y)`.
pub open spec fn flex_child_origin(
    style: Style,
    kids: Seq<StyleTree>,
    sizes: Seq<SizeTree>,
    axis: Axis,
    x: Fixed,
    y: Fixed,
    ctx: LayoutContext,
    inner: LayoutContext,
    i: int,
) -> (Fixed, Fixed) {
    let p = padding(style.spacing, ctx);
    let origin = axis.spec_width_height(x, y);
    let pad_start = axis.spec_width_height(p.left, p.top);
    let gap = flex_gap(style, axis, inner);
    let between = spec_resolve_justify_content(
        style.justify_content,
        flex_position_free(style, kids, sizes, axis, inner),
        kids.len() as usize,
    ).1;
    let child = kids[i].style;
    let main = flex_cursor(
        kids,
        sizes,
        axis,
        inner,
        gap,
        between,
        flex_cursor_start(style, kids, sizes, axis, origin.0, pad_start.0, inner),
        i,
    ).saturating_add(
        axis.spec_margin_main_start(child.spacing).resolve_or_zero(
            inner.spec_containing_block_main(axis),
            inner.spec_viewport_main(axis),
        ),
    );
    let cross = flex_cross_position(style, child, sizes[i].size, axis, origin.1, pad_start.1, inner);
    axis.spec_width_height(main, cross)
}

/// The corner of the `i`-th child of `t`, for sizes `s` and a corner `(x, y)`
/// of `t` itself.
pub open spec fn child_origin(t: StyleTree, s: SizeTree, x: Fixed, y: Fixed, ctx: LayoutContext, i: int) -> (Fixed, Fixed) {
    let inner = position_child_context(t.style, s.size, ctx);
    match t.style.display {
        Display::Hidden => (Fixed::zero(), Fixed::zero()),
        Display::Block => block_child_origin(t.style, t.children, s.children, x, y, ctx, inner, i),
        Display::Flex { flex_direction } => flex_child_origin(
            t.style,
            t.children,
            s.children,
            Axis::spec_of(flex_direction),
            x,
            y,
            ctx,
            inner,
            i,
        ),
    }
}

/// The boxes of `t` for sizes `s`, with the corner of `t` at `(x, y)`.
/// Coordinates are absolute: a child's corner already holds its parent's.
/// Everything below a hidden box is empty and lies at the origin.
#[verifier::opaque]
pub open spec fn place(t: StyleTree, s: SizeTree, x: Fixed, y: Fixed, ctx: LayoutContext) -> RectTree
    decreases t,
{
    RectTree {
        rect: Rect::at(x, y, s.size),
        children: Seq::new(
            t.children.len(),
            |i: int|
                if 0 <= i < t.children.len() {
                    if t.style.display == Display::Hidden {
                        t.children[i].zero_rects()
                    } else {
                        place(
                            t.children[i],
                            s.children[i],
                            child_origin(t, s, x, y, ctx, i).0,
                            child_origin(t, s, x, y, ctx, i).1,
                            position_child_context(t.style, s.size, ctx),
                        )
                    }
                } else {
                    arbitrary()
                },
        ),
    }
}

/// The geometry of the tree `t` laid out in a viewport of the given size
/// under the given policy: every box sized against the viewport, then
/// placed from the origin.
pub open spec fn layout_rects_with(t: StyleTree, width: Fixed, height: Fixed, basis: RowBlockBasis) -> RectTree {
    place(
        t,
        size_tree(t, root_context_with(width, height, basis)),
        Fixed::zero(),
        Fixed::zero(),
        root_context_with(width, height, basis),
    )
}

/// The geometry of the tree `t` laid out in a viewport of the given size
/// under the usual policy.
pub open spec fn layout_rects(t: StyleTree, width: Fixed, height: Fixed) -> RectTree {
    layout_rects_with(t, width, height, RowBlockBasis::Zero)
}

// ----------------------------------------------------------------------
// The definitions above, one level down
// ----------------------------------------------------------------------

/// What `block_child_sizes` holds.
pub proof fn lemma_block_child_sizes(t: StyleTree, ctx: LayoutContext)
    ensures
        block_child_sizes(t, ctx).len() == t.children.len(),
        forall|i: int|
            0 <= i < t.children.len() ==> (#[trigger] block_child_sizes(t, ctx)[i]) == measure(
                t.children[i],
                block_child_context(
                    block_content_width(t.style, ctx),
                    block_content_height(t.style, ctx),
                    ctx,
                    t.children[i].style,
                ),
            ),
{
    reveal(block_child_sizes);
    reveal(measured_in);
    reveal(measure);
}

/// What `measured_in` holds.
pub proof fn lemma_measured_in(t: StyleTree, inner: LayoutContext)
    ensures
        measured_in(t, inner).len() == t.children.len(),
        forall|i: int| 0 <= i < t.children.len() ==> (#[trigger] measured_in(t, inner)[i]) == measure(t.children[i], inner),
{
    reveal(block_child_sizes);
    reveal(measured_in);
    reveal(measure);
}

/// The size of a box by its display mode.
pub proof fn lemma_measure_unfold(t: StyleTree, ctx: LayoutContext)
    ensures
        t.style.display == Display::Hidden ==> measure(t, ctx) == Size::spec_zero(),
        t.style.display == Display::Block ==> measure(t, ctx) == block_size(
            t.style,
            ctx,
            t.children,
            block_child_sizes(t, ctx),
        ),
        t.style.display is Flex ==> measure(t, ctx) == flex_size(
            t.style,
            Axis::spec_of(t.style.display->flex_direction),
            ctx,
            t.children,
            measured_in(t, flex_inner_context(t.style, Axis::spec_of(t.style.display->flex_direction), ctx)),
        ),
{
    reveal(block_child_sizes);
    reveal(measured_in);
    reveal(measure);
}

/// The sizes of a tree, one level down.
pub proof fn lemma_size_tree_unfold(t: StyleTree, ctx: LayoutContext)
    ensures
        size_tree(t, ctx).size == measure(t, ctx),
        size_tree(t, ctx).children.len() == t.children.len(),
        forall|i: int|
            0 <= i < t.children.len() ==> (#[trigger] size_tree(t, ctx).children[i]) == (if t.style.display
                == Display::Hidden {
                t.children[i].zero_sizes()
            } else {
                size_tree(t.children[i], child_context(t, ctx, i))
            }),
{
    reveal(size_tree);
}

/// The boxes of a tree, one level down.
pub proof fn lemma_place_unfold(t: StyleTree, s: SizeTree, x: Fixed, y: Fixed, ctx: LayoutContext)
    ensures
        place(t, s, x, y, ctx).rect == Rect::at(x, y, s.size),
        place(t, s, x, y, ctx).children.len() == t.children.len(),
        forall|i: int|
            0 <= i < t.children.len() ==> (#[trigger] place(t, s, x, y, ctx).children[i]) == (if t.style.display
                == Display::Hidden {
                t.children[i].zero_rects()
            } else {
                place(
                    t.children[i],
                    s.children[i],
                    child_origin(t, s, x, y, ctx, i).0,
                    child_origin(t, s, x, y, ctx, i).1,
                    position_child_context(t.style, s.size, ctx),
                )
            }),
{
    reveal(place);
}

} // verus!
