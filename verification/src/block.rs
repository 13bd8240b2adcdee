//! Block containers: children stacked beneath one another.

use vstd::prelude::*;
use crate::axis::LayoutContext;
use crate::engine::content_extent;
use crate::engine::make_position_child_context;
use crate::engine::padded_extent;
use crate::engine::resolve_padding;
use crate::engine::LayoutEngine;
use crate::fixed::Fixed;
use crate::flex::clamp;
use crate::model::block_child_context;
use crate::model::block_child_sizes;
use crate::model::block_content_height;
use crate::model::block_content_width;
use crate::model::block_max_width;
use crate::model::block_total_height;
use crate::model::lemma_block_child_sizes;
use crate::model::lemma_measure_unfold;
use crate::model::lemma_size_tree_unfold;
use crate::model::block_cursor;
use crate::model::child_origin;
use crate::model::lemma_place_unfold;
use crate::model::measure;
use crate::model::place;
use crate::model::position_child_context;
use crate::model::padding;
use crate::model::size_tree;
use crate::model::Padding;
use crate::node::lemma_rects_by_parts;
use crate::node::lemma_sizes_by_parts;
use crate::node::lemma_styles_by_parts;
use crate::node::lemma_views_unfold;
use crate::node::LayoutNode;
use crate::style::Display;
use crate::style::Style;

verus! {

/// The content width of a block, where it is definite.
fn resolve_block_content_width(style: &Style, ctx: &LayoutContext, p: &Padding) -> (r: Option<Fixed>)
    requires
        *p == padding(style.spacing, *ctx),
    ensures
        r == block_content_width(*style, *ctx),
{
    let cbw = ctx.containing_block_width;
    let vw = ctx.viewport_width;
    match style.size.width.resolve_with(cbw, vw) {
        Some(w) => Some(w),
        None => match ctx.forced_width {
            Some(f) => Some(content_extent(f, p.left, p.right)),
            None => match cbw {
                Some(c) => {
                    let ml = style.spacing.margin_left.resolve_or_zero(cbw, vw);
                    let mr = style.spacing.margin_right.resolve_or_zero(cbw, vw);
                    Some(content_extent(c.saturating_sub(ml).saturating_sub(mr), p.left, p.right))
                },
                None => None,
            },
        },
    }
}

/// The content height of a block, where it is definite.
fn resolve_block_content_height(style: &Style, ctx: &LayoutContext, p: &Padding) -> (r: Option<Fixed>)
    requires
        *p == padding(style.spacing, *ctx),
    ensures
        r == block_content_height(*style, *ctx),
{
    match style.size.height.resolve_with(ctx.containing_block_height, ctx.viewport_height) {
        Some(h) => Some(h),
        None => match ctx.forced_height {
            Some(f) => Some(content_extent(f, p.top, p.bottom)),
            None => None,
        },
    }
}

/// The context that a block hands to a child.
fn make_block_child_context(
    content_width: Option<Fixed>,
    content_height: Option<Fixed>,
    ctx: &LayoutContext,
    child: &Style,
) -> (r: LayoutContext)
    ensures
        r == block_child_context(content_width, content_height, *ctx, *child),
{
    let ml = child.spacing.margin_left.resolve_with(content_width, ctx.viewport_width);
    let mr = child.spacing.margin_right.resolve_with(content_width, ctx.viewport_width);
    let forced_width = match (content_width, ml, mr) {
        (Some(w), Some(l), Some(r)) => Some(w.saturating_sub(l).saturating_sub(r).non_negative()),
        _ => None,
    };
    LayoutContext {
        containing_block_width: content_width,
        containing_block_height: content_height,
        viewport_width: ctx.viewport_width,
        viewport_height: ctx.viewport_height,
        forced_width,
        forced_height: None,
        row_block_basis: ctx.row_block_basis,
    }
}

impl LayoutEngine {
    /// Sizes a block: resolves its content box, lays out its children
    /// beneath one another, and takes its own size from them where it has
    /// none of its own.
    pub(crate) fn layout_block_size(node: &mut LayoutNode, self_only: bool, ctx: &LayoutContext)
        requires
            old(node).style.display == Display::Block,
        ensures
            final(node).styles() == old(node).styles(),
            final(node).rect.size() == measure(old(node).styles(), *ctx),
            !self_only ==> final(node).sizes() == size_tree(old(node).styles(), *ctx),
        decreases old(node).styles(), 2nat,
    {
        let ghost t = node.styles();
        let ghost sizes = block_child_sizes(t, *ctx);
        proof {
            lemma_views_unfold(*old(node));
        }
        let cbw = ctx.containing_block_width;
        let cbh = ctx.containing_block_height;
        let vw = ctx.viewport_width;
        let vh = ctx.viewport_height;
        let p = resolve_padding(&node.style.spacing, ctx);
        let content_width = resolve_block_content_width(&node.style, ctx, &p);
        let content_height = resolve_block_content_height(&node.style, ctx, &p);

        let mut total_child_height = Fixed::zero();
        let mut max_child_width = Fixed::zero();
        let n = node.children.len();
        let should_layout_children = content_width.is_none() || content_height.is_none() || !self_only;
        if should_layout_children {
            let mut i: usize = 0;
            while i < n
                invariant
                    0 <= i <= n,
                    n == node.children@.len(),
                    n == t.children.len(),
                    node.styles() == t,
                    t == old(node).styles(),
                    t.style == node.style,
                    node.style == old(node).style,
                    vw == ctx.viewport_width,
                    vh == ctx.viewport_height,
                    sizes == block_child_sizes(t, *ctx),
                    content_width == block_content_width(t.style, *ctx),
                    content_height == block_content_height(t.style, *ctx),
                    forall|j: int|
                        0 <= j < i ==> (#[trigger] node.children@[j]).rect.size() == measure(
                            t.children[j],
                            block_child_context(content_width, content_height, *ctx, t.children[j].style),
                        ),
                    forall|j: int|
                        0 <= j < i && !self_only ==> (#[trigger] node.children@[j]).sizes() == size_tree(
                            t.children[j],
                            block_child_context(content_width, content_height, *ctx, t.children[j].style),
                        ),
                    total_child_height == block_total_height(t.children, sizes, content_height, *ctx, i as int),
                    max_child_width == block_max_width(t.children, sizes, content_width, *ctx, i as int),
                decreases n - i,
            {
                let ghost before = *node;
                proof {
                    lemma_views_unfold(before);
                    lemma_views_unfold(node.children@[i as int]);
                }
                let child_ctx = make_block_child_context(content_width, content_height, ctx, &node.children[i].style);
                Self::layout_size(&mut node.children[i], self_only, &child_ctx);
                proof {
                    lemma_styles_by_parts(*node, before);
                    lemma_views_unfold(node.children@[i as int]);
                }
                let child = &node.children[i];
                proof {
                    lemma_block_child_sizes(t, *ctx);
                }
                let mt = child.style.spacing.margin_top.resolve_or_zero(content_height, vh);
                let mb = child.style.spacing.margin_bottom.resolve_or_zero(content_height, vh);
                let ml = child.style.spacing.margin_left.resolve_or_zero(content_width, vw);
                let mr = child.style.spacing.margin_right.resolve_or_zero(content_width, vw);
                total_child_height = total_child_height.saturating_add(
                    child.rect.height.saturating_add(mt).saturating_add(mb),
                );
                max_child_width = max_child_width.at_least(child.rect.width.saturating_add(ml).saturating_add(mr));
                i += 1;
            }
        }
        let computed_width = match content_width {
            Some(w) => w,
            None => max_child_width,
        };
        let computed_height = match content_height {
            Some(h) => h,
            None => total_child_height,
        };
        let final_width = clamp(
            computed_width,
            node.style.size.min_width.resolve_with(cbw, vw),
            node.style.size.max_width.resolve_with(cbw, vw),
        );
        let final_height = clamp(
            computed_height,
            node.style.size.min_height.resolve_with(cbh, vh),
            node.style.size.max_height.resolve_with(cbh, vh),
        );
        let ghost before = *node;
        node.rect.width = padded_extent(final_width, p.left, p.right);
        node.rect.height = padded_extent(final_height, p.top, p.bottom);
        proof {
            lemma_styles_by_parts(*node, before);
            lemma_measure_unfold(t, *ctx);
            if !self_only {
                lemma_size_tree_unfold(t, *ctx);
                lemma_sizes_by_parts(*node, size_tree(t, *ctx));
            }
        }
    }

    /// Places the children of a block: each at the left padding and its
    /// left margin, beneath the one before it.
    pub(crate) fn layout_block_position(node: &mut LayoutNode, ctx: &LayoutContext)
        requires
            old(node).style.display == Display::Block,
        ensures
            final(node).styles() == old(node).styles(),
            final(node).rects() == place(old(node).styles(), old(node).sizes(), old(node).rect.x, old(node).rect.y, *ctx),
        decreases old(node).styles(), 2nat,
    {
        let ghost t = node.styles();
        let ghost s = node.sizes();
        let ghost x = node.rect.x;
        let ghost y = node.rect.y;
        proof {
            lemma_views_unfold(*old(node));
        }
        let p = resolve_padding(&node.style.spacing, ctx);
        let inner = make_position_child_context(node, ctx);
        let cursor_x = node.rect.x.saturating_add(p.left);
        let mut cursor_y = node.rect.y.saturating_add(p.top);
        let ghost start = cursor_y;
        let n = node.children.len();
        let mut i: usize = 0;
        while i < n
            invariant
                0 <= i <= n,
                n == node.children@.len(),
                n == t.children.len(),
                n == s.children.len(),
                node.styles() == t,
                t == old(node).styles(),
                s == old(node).sizes(),
                t.style == node.style,
                node.style == old(node).style,
                node.rect == old(node).rect,
                t.style.display == Display::Block,
                x == node.rect.x,
                y == node.rect.y,
                s.size == node.rect.size(),
                p == padding(t.style.spacing, *ctx),
                inner == position_child_context(t.style, s.size, *ctx),
                cursor_x == x.saturating_add(p.left),
                start == y.saturating_add(p.top),
                cursor_y == block_cursor(t.children, s.children, inner, start, i as int),
                forall|j: int| i <= j < n ==> (#[trigger] node.children@[j]).sizes() == s.children[j],
                forall|j: int|
                    0 <= j < i ==> (#[trigger] node.children@[j]).rects() == place(
                        t.children[j],
                        s.children[j],
                        child_origin(t, s, x, y, *ctx, j).0,
                        child_origin(t, s, x, y, *ctx, j).1,
                        inner,
                    ),
            decreases n - i,
        {
            let ghost before = *node;
            proof {
                lemma_views_unfold(before);
                lemma_views_unfold(node.children@[i as int]);
            }
            let child = &node.children[i];
            let ml = child.style.spacing.margin_left.resolve_or_zero(inner.containing_block_width, inner.viewport_width);
            let mt = child.style.spacing.margin_top.resolve_or_zero(inner.containing_block_height, inner.viewport_height);
            let mb = child.style.spacing.margin_bottom.resolve_or_zero(
                inner.containing_block_height,
                inner.viewport_height,
            );
            let child_x = cursor_x.saturating_add(ml);
            let child_y = cursor_y.saturating_add(mt);
            Self::layout_position(&mut node.children[i], child_x, child_y, &inner);
            proof {
                lemma_styles_by_parts(*node, before);
                lemma_place_unfold(t.children[i as int], s.children[i as int], child_x, child_y, inner);
                lemma_views_unfold(node.children@[i as int]);
            }
            cursor_y = cursor_y.saturating_add(mt.saturating_add(node.children[i].rect.height).saturating_add(mb));
            i += 1;
        }
        proof {
            lemma_place_unfold(t, s, x, y, *ctx);
            lemma_rects_by_parts(*node, place(t, s, x, y, *ctx));
        }
    }
}

} // verus!
