//! Flex containers: children lined up along a main axis.

use vstd::prelude::*;
use crate::axis::Axis;
use crate::axis::LayoutContext;
use crate::axis::RowBlockBasis;
use crate::engine::content_extent;
use crate::engine::make_position_child_context;
use crate::engine::resolve_padding;
use crate::engine::padded_extent;
use crate::engine::LayoutEngine;
use crate::fixed::Fixed;
use crate::flex::clamp;
use crate::flex::distribute;
use crate::flex::resolve_align_position;
use crate::flex::resolve_justify_content;
use crate::flex::spec_resolve_justify_content;
use crate::flex::lemma_distribute_keeps;
use crate::flex::FlexItem;
use crate::flex::MAX_ROUNDS;
use crate::geometry::Rect;
use crate::model::flex_child_context;
use crate::model::flex_content_main;
use crate::model::flex_final_items;
use crate::model::flex_gap;
use crate::model::flex_gaps;
use crate::model::flex_item;
use crate::model::flex_items;
use crate::model::flex_own_cross;
use crate::model::flex_own_main;
use crate::model::item_cross_margin;
use crate::model::item_main_margin;
use crate::model::item_main_padding;
use crate::model::item_outer_cross;
use crate::model::max_outer_cross;
use crate::model::lemma_measure_unfold;
use crate::model::lemma_measured_in;
use crate::model::lemma_size_tree_unfold;
use crate::model::flex_cursor;
use crate::model::flex_cursor_start;
use crate::model::flex_position_free;
use crate::model::flex_total_main;
use crate::model::child_origin;
use crate::model::lemma_place_unfold;
use crate::model::or_zero;
use crate::model::padding;
use crate::model::place;
use crate::model::position_child_context;
use crate::model::measure;
use crate::model::measured_in;
use crate::model::size_tree;
use crate::model::sum_main_margin;
use crate::model::sum_main_padding;
use crate::model::sum_sizes;
use crate::node::lemma_rects_by_parts;
use crate::node::lemma_sizes_by_parts;
use crate::node::lemma_styles_by_parts;
use crate::node::lemma_views_unfold;
use crate::node::LayoutNode;
use crate::style::AlignItems;
use crate::style::Display;
use crate::style::Style;

verus! {

/// The content size of a flex container along its main axis, where it is
/// definite.
fn resolve_flex_own_main(style: &Style, axis: Axis, ctx: &LayoutContext) -> (r: Option<Fixed>)
    ensures
        r == flex_own_main(*style, axis, *ctx),
{
    let cbm = ctx.containing_block_main(axis);
    let vm = ctx.viewport_main(axis);
    match axis.size_main(&style.size).resolve_with(cbm, vm) {
        Some(v) => Some(v),
        None => match ctx.forced_main(axis) {
            Some(f) => {
                let (start, end) = axis.padding_main(&style.spacing);
                Some(content_extent(f, start.resolve_or_zero(cbm, vm), end.resolve_or_zero(cbm, vm)))
            },
            None => None,
        },
    }
}

/// The content size of a flex container along its cross axis, where it is
/// definite.
fn resolve_flex_own_cross(style: &Style, axis: Axis, ctx: &LayoutContext) -> (r: Option<Fixed>)
    ensures
        r == flex_own_cross(*style, axis, *ctx),
{
    let cbc = ctx.containing_block_cross(axis);
    let vc = ctx.viewport_cross(axis);
    match axis.size_cross(&style.size).resolve_with(cbc, vc) {
        Some(v) => Some(v),
        None => match ctx.forced_cross(axis) {
            Some(f) => {
                let (start, end) = axis.padding_cross(&style.spacing);
                Some(content_extent(f, start.resolve_or_zero(cbc, vc), end.resolve_or_zero(cbc, vc)))
            },
            None => None,
        },
    }
}

/// The gap of a flex container.
fn resolve_flex_gap(style: &Style, axis: Axis, inner: &LayoutContext) -> (r: Fixed)
    ensures
        r == flex_gap(*style, axis, *inner),
{
    axis.gap(style).resolve_or_zero(inner.containing_block_cross(axis), inner.viewport_cross(axis)).non_negative()
}

/// All the gaps between `count` items.
fn resolve_flex_gaps(style: &Style, axis: Axis, inner: &LayoutContext, count: usize) -> (r: Fixed)
    ensures
        r == flex_gaps(*style, axis, *inner, count),
{
    let between: usize = if count > 0 { count - 1 } else { 0 };
    resolve_flex_gap(style, axis, inner).mul_count(between)
}

/// The main-axis padding of a flex item.
fn resolve_item_main_padding(child: &Style, axis: Axis, inner: &LayoutContext) -> (r: Fixed)
    ensures
        r == item_main_padding(*child, axis, *inner),
{
    let cbm = inner.containing_block_main(axis);
    let vm = inner.viewport_main(axis);
    let (start, end) = axis.padding_main(&child.spacing);
    start.resolve_or_zero(cbm, vm).saturating_add(end.resolve_or_zero(cbm, vm))
}

/// The main-axis margins of a flex item.
fn resolve_item_main_margin(child: &Style, axis: Axis, inner: &LayoutContext) -> (r: Fixed)
    ensures
        r == item_main_margin(*child, axis, *inner),
{
    let cbm = inner.containing_block_main(axis);
    let vm = inner.viewport_main(axis);
    axis.margin_main_start(&child.spacing).resolve_or_zero(cbm, vm).saturating_add(
        axis.margin_main_end(&child.spacing).resolve_or_zero(cbm, vm),
    )
}

/// The cross-axis margins of a flex item.
fn resolve_item_cross_margin(child: &Style, axis: Axis, inner: &LayoutContext) -> (r: Fixed)
    ensures
        r == item_cross_margin(*child, axis, *inner),
{
    let cbc = inner.containing_block_cross(axis);
    let vc = inner.viewport_cross(axis);
    axis.margin_cross_start(&child.spacing).resolve_or_zero(cbc, vc).saturating_add(
        axis.margin_cross_end(&child.spacing).resolve_or_zero(cbc, vc),
    )
}

/// The outer cross size of a flex item.
fn resolve_item_outer_cross(child: &Style, measured: &Rect, axis: Axis, inner: &LayoutContext) -> (r: Fixed)
    ensures
        r == item_outer_cross(*child, measured.size(), axis, *inner),
{
    let cbc = inner.containing_block_cross(axis);
    let vc = inner.viewport_cross(axis);
    let cross_size = match axis.size_cross(&child.size).resolve_with(cbc, vc) {
        Some(v) => {
            let (start, end) = axis.padding_cross(&child.spacing);
            v.saturating_add(start.resolve_or_zero(cbc, vc).saturating_add(end.resolve_or_zero(cbc, vc)))
        },
        None => axis.cross(measured),
    };
    cross_size.saturating_add(resolve_item_cross_margin(child, axis, inner))
}

/// A child as a flex item, before any space is shared out.
fn make_flex_item(child: &Style, measured: &Rect, axis: Axis, inner: &LayoutContext) -> (r: FlexItem)
    ensures
        r == flex_item(*child, measured.size(), axis, *inner),
{
    let cbm = inner.containing_block_main(axis);
    let vm = inner.viewport_main(axis);
    let min = axis.min_main(&child.size).resolve_with(cbm, vm);
    let max = axis.max_main(&child.size).resolve_with(cbm, vm);
    let grow = child.item_style.flex_grow;
    match child.item_style.flex_basis.resolve_with(cbm, vm) {
        Some(v) => FlexItem { size: v, grow, min, max, frozen: false },
        None => match axis.size_main(&child.size).resolve_with(cbm, vm) {
            Some(v) => FlexItem { size: v, grow, min, max, frozen: true },
            None => {
                let in_row = match axis {
                    Axis::Horizontal => true,
                    Axis::Vertical => false,
                };
                let is_block = match child.display {
                    Display::Block => true,
                    _ => false,
                };
                let from_nothing = match inner.row_block_basis {
                    RowBlockBasis::Zero => true,
                    RowBlockBasis::Intrinsic => false,
                };
                if is_block && in_row && from_nothing {
                    FlexItem { size: Fixed::zero(), grow, min, max, frozen: false }
                } else {
                    let (start, end) = axis.padding_main(&child.spacing);
                    FlexItem {
                        size: axis.main(measured).saturating_sub(start.resolve_or_zero(cbm, vm)).saturating_sub(
                            end.resolve_or_zero(cbm, vm),
                        ),
                        grow,
                        min,
                        max,
                        frozen: false,
                    }
                }
            },
        },
    }
}

/// The context in which a flex container lays out a child for good.
fn make_flex_child_context(container: &Style, child: &Style, item: &FlexItem, axis: Axis, inner: &LayoutContext) -> (r: LayoutContext)
    ensures
        r == flex_child_context(*container, *child, *item, axis, *inner),
{
    let cbm = inner.containing_block_main(axis);
    let vm = inner.viewport_main(axis);
    let cbc = inner.containing_block_cross(axis);
    let vc = inner.viewport_cross(axis);
    let align = match child.item_style.align_self {
        Some(a) => a,
        None => container.align_items,
    };
    let stretches = match align {
        AlignItems::Stretch => true,
        _ => false,
    };
    let stretched = if stretches && axis.size_cross(&child.size).resolve_with(cbc, vc).is_none() {
        match cbc {
            Some(v) => Some(
                v.saturating_sub(axis.margin_cross_start(&child.spacing).resolve_or_zero(cbc, vc)).saturating_sub(
                    axis.margin_cross_end(&child.spacing).resolve_or_zero(cbc, vc),
                ),
            ),
            None => None,
        }
    } else {
        None
    };
    let (start, end) = axis.padding_main(&child.spacing);
    let forced_main = Some(
        item.size.saturating_add(start.resolve_or_zero(cbm, vm)).saturating_add(end.resolve_or_zero(cbm, vm)),
    );
    let (forced_width, forced_height) = axis.width_height(forced_main, stretched);
    LayoutContext {
        containing_block_width: inner.containing_block_width,
        containing_block_height: inner.containing_block_height,
        viewport_width: inner.viewport_width,
        viewport_height: inner.viewport_height,
        forced_width,
        forced_height,
        row_block_basis: inner.row_block_basis,
    }
}

impl LayoutEngine {
    /// Sizes a flex container: resolves its content box, sizes its children
    /// along `axis`, and takes its own size from them where it has none of
    /// its own.
    pub(crate) fn layout_flex_size(node: &mut LayoutNode, axis: Axis, self_only: bool, ctx: &LayoutContext)
        requires
            old(node).style.display is Flex,
            axis == Axis::spec_of(old(node).style.display->flex_direction),
        ensures
            final(node).styles() == old(node).styles(),
            final(node).rect.size() == measure(old(node).styles(), *ctx),
            !self_only ==> final(node).sizes() == size_tree(old(node).styles(), *ctx),
        decreases old(node).styles(), 2nat,
    {
        let ghost t = node.styles();
        proof {
            lemma_views_unfold(*old(node));
        }
        let vm = ctx.viewport_main(axis);
        let vc = ctx.viewport_cross(axis);
        let cbm = ctx.containing_block_main(axis);
        let cbc = ctx.containing_block_cross(axis);

        let (pms, pme) = axis.padding_main(&node.style.spacing);
        let (pcs, pce) = axis.padding_cross(&node.style.spacing);
        let pms = pms.resolve_or_zero(cbm, vm);
        let pme = pme.resolve_or_zero(cbm, vm);
        let pcs = pcs.resolve_or_zero(cbc, vc);
        let pce = pce.resolve_or_zero(cbc, vc);

        let own_main = resolve_flex_own_main(&node.style, axis, ctx);
        let own_cross = resolve_flex_own_cross(&node.style, axis, ctx);

        let layout_children = own_main.is_none() || own_cross.is_none() || !self_only;
        let (own_width, own_height) = axis.width_height(own_main, own_cross);
        let children_ctx = LayoutContext {
            containing_block_width: own_width,
            containing_block_height: own_height,
            viewport_width: ctx.viewport_width,
            viewport_height: ctx.viewport_height,
            forced_width: None,
            forced_height: None,
            row_block_basis: ctx.row_block_basis,
        };
        let (content_main, max_child_cross) = if layout_children {
            Self::layout_flex_children_size(node, axis, self_only, &children_ctx)
        } else {
            (Fixed::zero(), Fixed::zero())
        };

        let min_main = axis.min_main(&node.style.size).resolve_with(cbm, vm);
        let max_main = axis.max_main(&node.style.size).resolve_with(cbm, vm);
        let min_cross = axis.min_cross(&node.style.size).resolve_with(cbc, vc);
        let max_cross = axis.max_cross(&node.style.size).resolve_with(cbc, vc);

        let main = match own_main {
            Some(v) => v,
            None => content_main,
        };
        let cross = match own_cross {
            Some(v) => v,
            None => max_child_cross,
        };
        let final_main = padded_extent(clamp(main, min_main, max_main), pms, pme);
        let final_cross = padded_extent(clamp(cross, min_cross, max_cross), pcs, pce);

        let ghost before = *node;
        match axis {
            Axis::Horizontal => {
                node.rect.width = final_main;
                node.rect.height = final_cross;
            },
            Axis::Vertical => {
                node.rect.width = final_cross;
                node.rect.height = final_main;
            },
        }
        proof {
            lemma_styles_by_parts(*node, before);
            lemma_measure_unfold(t, *ctx);
            if !self_only {
                lemma_size_tree_unfold(t, *ctx);
                lemma_sizes_by_parts(*node, size_tree(t, *ctx));
            }
        }
    }

    /// Sizes the children of a flex container.
    ///
    /// Measures each child on its own, shares the free space of the main
    /// axis out among those that grow, and lays each child out with its
    /// share forced on it. Returns what the children take up along the main
    /// axis and the largest outer cross size among them.
    pub(crate) fn layout_flex_children_size(node: &mut LayoutNode, axis: Axis, self_only: bool, inner: &LayoutContext) -> (r: (
        Fixed,
        Fixed,
    ))
        ensures
            final(node).styles() == old(node).styles(),
            final(node).rect == old(node).rect,
            final(node).style == old(node).style,
            final(node).children@.len() == old(node).children@.len(),
            r.0 == flex_content_main(
                old(node).style,
                axis,
                *inner,
                old(node).styles().children,
                measured_in(old(node).styles(), *inner),
            ),
            r.1 == max_outer_cross(
                old(node).styles().children,
                measured_in(old(node).styles(), *inner),
                axis,
                *inner,
                old(node).children@.len() as int,
            ),
            forall|j: int|
                0 <= j < final(node).children@.len() && !self_only ==> (#[trigger] final(node).children@[j]).sizes()
                    == size_tree(
                    old(node).styles().children[j],
                    flex_child_context(
                        old(node).style,
                        old(node).styles().children[j].style,
                        flex_final_items(
                            old(node).style,
                            axis,
                            *inner,
                            old(node).styles().children,
                            measured_in(old(node).styles(), *inner),
                        )[j],
                        axis,
                        *inner,
                    ),
                ),
        decreases old(node).styles(), 1nat,
    {
        let ghost t = node.styles();
        let ghost sizes = measured_in(t, *inner);
        let ghost base = flex_items(t.children, sizes, axis, *inner);
        proof {
            lemma_views_unfold(*old(node));
        }
        let count = node.children.len();
        let cbm = inner.containing_block_main(axis);
        let gaps = resolve_flex_gaps(&node.style, axis, inner, count);

        let mut items: Vec<FlexItem> = Vec::new();
        let mut total_base_main = Fixed::zero();
        let mut total_main_padding = Fixed::zero();
        let mut total_main_margin = Fixed::zero();
        let mut max_cross = Fixed::zero();

        let mut i: usize = 0;
        while i < count
            invariant
                0 <= i <= count,
                count == node.children@.len(),
                count == t.children.len(),
                node.styles() == t,
                t == old(node).styles(),
                t.style == node.style,
                node.style == old(node).style,
                node.rect == old(node).rect,
                sizes == measured_in(t, *inner),
                base == flex_items(t.children, sizes, axis, *inner),
                items@.len() == i,
                forall|j: int| 0 <= j < i ==> items@[j] == base[j],
                total_base_main == sum_sizes(base, i as int),
                total_main_padding == sum_main_padding(t.children, axis, *inner, i as int),
                total_main_margin == sum_main_margin(t.children, axis, *inner, i as int),
                max_cross == max_outer_cross(t.children, sizes, axis, *inner, i as int),
            decreases count - i,
        {
            let ghost before = *node;
            proof {
                lemma_views_unfold(before);
            }
            Self::layout_size(&mut node.children[i], true, inner);
            proof {
                lemma_styles_by_parts(*node, before);
                lemma_views_unfold(node.children@[i as int]);
            }
            let child = &node.children[i];
            proof {
                lemma_measured_in(t, *inner);
                assert(t.children[i as int].style == child.style);
            }
            let item = make_flex_item(&child.style, &child.rect, axis, inner);
            total_base_main = total_base_main.saturating_add(item.size);
            total_main_padding = total_main_padding.saturating_add(resolve_item_main_padding(&child.style, axis, inner));
            total_main_margin = total_main_margin.saturating_add(resolve_item_main_margin(&child.style, axis, inner));
            max_cross = max_cross.at_least(resolve_item_outer_cross(&child.style, &child.rect, axis, inner));
            items.push(item);
            i += 1;
        }
        proof {
            assert(items@ =~= base);
        }

        let remaining = match cbm {
            Some(m) => m.saturating_sub(
                total_base_main.saturating_add(gaps).saturating_add(total_main_padding).saturating_add(
                    total_main_margin,
                ),
            ).non_negative(),
            None => Fixed::zero(),
        };
        distribute(&mut items, remaining);
        let ghost shares = flex_final_items(t.style, axis, *inner, t.children, sizes);
        proof {
            lemma_distribute_keeps(base, remaining, MAX_ROUNDS as nat);
        }

        let mut used_main = Fixed::zero();
        let mut k: usize = 0;
        while k < count
            invariant
                0 <= k <= count,
                count == node.children@.len(),
                count == t.children.len(),
                count == items@.len(),
                node.styles() == t,
                t == old(node).styles(),
                t.style == node.style,
                node.style == old(node).style,
                node.rect == old(node).rect,
                items@ == shares,
                used_main == sum_sizes(shares, k as int),
                forall|j: int|
                    0 <= j < k && !self_only ==> (#[trigger] node.children@[j]).sizes() == size_tree(
                        t.children[j],
                        flex_child_context(t.style, t.children[j].style, shares[j], axis, *inner),
                    ),
            decreases count - k,
        {
            let ghost before = *node;
            proof {
                lemma_views_unfold(before);
                lemma_views_unfold(node.children@[k as int]);
            }
            let child_ctx = make_flex_child_context(&node.style, &node.children[k].style, &items[k], axis, inner);
            Self::layout_size(&mut node.children[k], self_only, &child_ctx);
            proof {
                lemma_styles_by_parts(*node, before);
            }
            used_main = used_main.saturating_add(items[k].size);
            k += 1;
        }
        let content_main = used_main.saturating_add(total_main_margin).saturating_add(total_main_padding).saturating_add(
            gaps,
        );
        (content_main, max_cross)
    }

    /// Places the children of a flex container: along the main axis as its
    /// justification says, with margins and gaps between them, and on the
    /// cross axis as each child's alignment says.
    pub(crate) fn layout_flex_position(node: &mut LayoutNode, axis: Axis, ctx: &LayoutContext)
        requires
            old(node).style.display is Flex,
            axis == Axis::spec_of(old(node).style.display->flex_direction),
        ensures
            final(node).styles() == old(node).styles(),
            final(node).rects() == place(old(node).styles(), old(node).sizes(), old(node).rect.x, old(node).rect.y, *ctx),
        decreases old(node).styles(), 2nat,
    {
        let ghost t = node.styles();
        let ghost s = node.sizes();
        let ghost x = node.rect.x;
        let ghost y = node.rect.y;
        proof {
            lemma_views_unfold(*old(node));
        }
        let p = resolve_padding(&node.style.spacing, ctx);
        let inner = make_position_child_context(node, ctx);
        let gap = resolve_flex_gap(&node.style, axis, &inner);
        let count = node.children.len();
        let cbm = inner.containing_block_main(axis);
        let vm = inner.viewport_main(axis);
        let cbc = inner.containing_block_cross(axis);
        let vc = inner.viewport_cross(axis);

        let mut total_main = Fixed::zero();
        let mut i: usize = 0;
        while i < count
            invariant
                0 <= i <= count,
                count == node.children@.len(),
                count == t.children.len(),
                count == s.children.len(),
                *node == *old(node),
                t == node.styles(),
                s == node.sizes(),
                cbm == inner.spec_containing_block_main(axis),
                vm == inner.spec_viewport_main(axis),
                total_main == flex_total_main(t.children, s.children, axis, inner, i as int),
            decreases count - i,
        {
            proof {
                lemma_views_unfold(*node);
                lemma_views_unfold(node.children@[i as int]);
            }
            let child = &node.children[i];
            let ms = axis.margin_main_start(&child.style.spacing).resolve_or_zero(cbm, vm);
            let me = axis.margin_main_end(&child.style.spacing).resolve_or_zero(cbm, vm);
            total_main = total_main.saturating_add(axis.main(&child.rect).saturating_add(ms).saturating_add(me));
            i += 1;
        }
        let gaps = resolve_flex_gaps(&node.style, axis, &inner, count);
        let inner_main = match cbm {
            Some(v) => v,
            None => Fixed::zero(),
        };
        let inner_cross = match cbc {
            Some(v) => v,
            None => Fixed::zero(),
        };
        let remaining = inner_main.saturating_sub(total_main.saturating_add(gaps)).non_negative();
        let (start_offset, gap_between) = resolve_justify_content(node.style.justify_content, remaining, count);
        let (origin_main, origin_cross) = axis.width_height(node.rect.x, node.rect.y);
        let (pad_main_start, pad_cross_start) = axis.width_height(p.left, p.top);
        let mut cursor_main = origin_main.saturating_add(start_offset.saturating_add(pad_main_start));
        let ghost start = cursor_main;

        let mut k: usize = 0;
        while k < count
            invariant
                0 <= k <= count,
                count == node.children@.len(),
                count == t.children.len(),
                count == s.children.len(),
                node.styles() == t,
                t == old(node).styles(),
                s == old(node).sizes(),
                t.style == node.style,
                node.style == old(node).style,
                node.rect == old(node).rect,
                t.style.display is Flex,
                axis == Axis::spec_of(t.style.display->flex_direction),
                x == node.rect.x,
                y == node.rect.y,
                s.size == node.rect.size(),
                p == padding(t.style.spacing, *ctx),
                inner == position_child_context(t.style, s.size, *ctx),
                cbm == inner.spec_containing_block_main(axis),
                vm == inner.spec_viewport_main(axis),
                cbc == inner.spec_containing_block_cross(axis),
                vc == inner.spec_viewport_cross(axis),
                inner_cross == or_zero(cbc),
                gap == flex_gap(t.style, axis, inner),
                remaining == flex_position_free(t.style, t.children, s.children, axis, inner),
                (start_offset, gap_between) == spec_resolve_justify_content(t.style.justify_content, remaining, count),
                (origin_main, origin_cross) == axis.spec_width_height(x, y),
                (pad_main_start, pad_cross_start) == axis.spec_width_height(p.left, p.top),
                start == flex_cursor_start(t.style, t.children, s.children, axis, origin_main, pad_main_start, inner),
                cursor_main == flex_cursor(t.children, s.children, axis, inner, gap, gap_between, start, k as int),
                forall|j: int| k <= j < count ==> (#[trigger] node.children@[j]).sizes() == s.children[j],
                forall|j: int|
                    0 <= j < k ==> (#[trigger] node.children@[j]).rects() == place(
                        t.children[j],
                        s.children[j],
                        child_origin(t, s, x, y, *ctx, j).0,
                        child_origin(t, s, x, y, *ctx, j).1,
                        inner,
                    ),
            decreases count - k,
        {
            let ghost before = *node;
            proof {
                lemma_views_unfold(before);
                assert(t.children[k as int] == node.children@[k as int].styles());
                lemma_views_unfold(node.children@[k as int]);
            }
            let child = &node.children[k];
            let ms = axis.margin_main_start(&child.style.spacing).resolve_or_zero(cbm, vm);
            let me = axis.margin_main_end(&child.style.spacing).resolve_or_zero(cbm, vm);
            let mcs = axis.margin_cross_start(&child.style.spacing).resolve_or_zero(cbc, vc);
            let main_pos = cursor_main.saturating_add(ms);
            let outer_cross = axis.cross(&child.rect).saturating_add(resolve_item_cross_margin(&child.style, axis, &inner));
            let align = match child.style.item_style.align_self {
                Some(a) => a,
                None => node.style.align_items,
            };
            let cross_pos = origin_cross.saturating_add(pad_cross_start).saturating_add(mcs).saturating_add(
                resolve_align_position(align, outer_cross, inner_cross),
            );
            let (child_x, child_y) = axis.width_height(main_pos, cross_pos);
            let advance = axis.main(&child.rect).saturating_add(me).saturating_add(gap).saturating_add(gap_between);
            Self::layout_position(&mut node.children[k], child_x, child_y, &inner);
            proof {
                lemma_styles_by_parts(*node, before);
            }
            cursor_main = main_pos.saturating_add(advance);
            k += 1;
        }
        proof {
            lemma_place_unfold(t, s, x, y, *ctx);
            lemma_rects_by_parts(*node, place(t, s, x, y, *ctx));
        }
    }
}

} // verus!
