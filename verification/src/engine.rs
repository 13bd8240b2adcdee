//! The layout engine: a size pass and a position pass over the tree.

use vstd::prelude::*;
use crate::axis::Axis;
use crate::axis::LayoutContext;
use crate::axis::RowBlockBasis;
use crate::fixed::Fixed;
use crate::geometry::Rect;
use crate::laws::lemma_layout_non_negative;
use crate::model::inner_extent;
use crate::model::lemma_measure_unfold;
use crate::model::lemma_size_tree_unfold;
use crate::model::layout_rects;
use crate::model::layout_rects_with;
use crate::model::lemma_place_unfold;
use crate::model::measure;
use crate::model::place;
use crate::model::position_child_context;
use crate::model::outer_extent;
use crate::model::padding;
use crate::model::size_tree;
use crate::model::Padding;
use crate::node::lemma_rects_by_parts;
use crate::node::lemma_sizes_by_parts;
use crate::node::lemma_styles_by_parts;
use crate::node::lemma_views_unfold;
use crate::node::LayoutNode;
use crate::style::Display;
use crate::style::Spacing;

verus! {

/// The entry point of the library.
pub struct LayoutEngine;

/// Resolves the padding of a box.
pub(crate) fn resolve_padding(s: &Spacing, ctx: &LayoutContext) -> (p: Padding)
    ensures
        p == padding(*s, *ctx),
{
    Padding {
        left: s.padding_left.resolve_or_zero(ctx.containing_block_width, ctx.viewport_width),
        right: s.padding_right.resolve_or_zero(ctx.containing_block_width, ctx.viewport_width),
        top: s.padding_top.resolve_or_zero(ctx.containing_block_height, ctx.viewport_height),
        bottom: s.padding_bottom.resolve_or_zero(ctx.containing_block_height, ctx.viewport_height),
    }
}

/// Takes the padding off an outer size.
pub(crate) fn content_extent(outer: Fixed, start: Fixed, end: Fixed) -> (r: Fixed)
    ensures
        r == inner_extent(outer, start, end),
{
    outer.saturating_sub(start).saturating_sub(end).non_negative()
}

/// The context in which the children of a box are placed.
pub(crate) fn make_position_child_context(node: &LayoutNode, ctx: &LayoutContext) -> (r: LayoutContext)
    ensures
        r == position_child_context(node.style, node.rect.size(), *ctx),
{
    let p = resolve_padding(&node.style.spacing, ctx);
    LayoutContext {
        containing_block_width: Some(content_extent(node.rect.width, p.left, p.right)),
        containing_block_height: Some(content_extent(node.rect.height, p.top, p.bottom)),
        viewport_width: ctx.viewport_width,
        viewport_height: ctx.viewport_height,
        forced_width: None,
        forced_height: None,
        row_block_basis: ctx.row_block_basis,
    }
}

/// Puts the padding on a content size.
pub(crate) fn padded_extent(content: Fixed, start: Fixed, end: Fixed) -> (r: Fixed)
    ensures
        r == outer_extent(content, start, end),
        r@ >= 0,
{
    content.saturating_add(start).saturating_add(end).non_negative()
}

impl LayoutEngine {
    /// Empties the box of the node and of everything below it.
    pub(crate) fn clear(node: &mut LayoutNode)
        ensures
            final(node).styles() == old(node).styles(),
            final(node).sizes() == old(node).styles().zero_sizes(),
            final(node).rects() == old(node).styles().zero_rects(),
        decreases old(node).styles(), 1nat,
    {
        node.rect = Rect::default();
        proof {
            lemma_styles_by_parts(*node, *old(node));
        }
        Self::clear_children(node);
        proof {
            lemma_views_unfold(*node);
            lemma_sizes_by_parts(*node, old(node).styles().zero_sizes());
            lemma_rects_by_parts(*node, old(node).styles().zero_rects());
        }
    }

    /// Empties the boxes of everything below the node.
    pub(crate) fn clear_children(node: &mut LayoutNode)
        ensures
            final(node).styles() == old(node).styles(),
            final(node).rect == old(node).rect,
            final(node).style == old(node).style,
            final(node).children@.len() == old(node).children@.len(),
            forall|j: int|
                0 <= j < final(node).children@.len() ==> (#[trigger] final(node).children@[j]).sizes() == old(
                    node,
                ).styles().children[j].zero_sizes(),
            forall|j: int|
                0 <= j < final(node).children@.len() ==> (#[trigger] final(node).children@[j]).rects() == old(
                    node,
                ).styles().children[j].zero_rects(),
        decreases old(node).styles(), 0nat,
    {
        let ghost t = node.styles();
        let n = node.children.len();
        let mut i: usize = 0;
        while i < n
            invariant
                0 <= i <= n,
                n == node.children@.len(),
                n == old(node).children@.len(),
                node.styles() == t,
                t == old(node).styles(),
                node.rect == old(node).rect,
                node.style == old(node).style,
                forall|j: int| 0 <= j < i ==> (#[trigger] node.children@[j]).sizes() == t.children[j].zero_sizes(),
                forall|j: int| 0 <= j < i ==> (#[trigger] node.children@[j]).rects() == t.children[j].zero_rects(),
            decreases n - i,
        {
            let ghost before = *node;
            proof {
                lemma_views_unfold(before);
                assert(t.children[i as int] == node.children@[i as int].styles());
            }
            Self::clear(&mut node.children[i]);
            proof {
                lemma_styles_by_parts(*node, before);
            }
            i += 1;
        }
    }

    /// Sizes the node and, unless `self_only` allows stopping short,
    /// everything below it.
    ///
    /// With `self_only` the node's own size is still the one it would get
    /// otherwise; only the boxes below it may be left unsized, where the
    /// node's size does not need them.
    pub(crate) fn layout_size(node: &mut LayoutNode, self_only: bool, ctx: &LayoutContext)
        ensures
            final(node).styles() == old(node).styles(),
            final(node).rect.size() == measure(old(node).styles(), *ctx),
            !self_only ==> final(node).sizes() == size_tree(old(node).styles(), *ctx),
        decreases old(node).styles(), 3nat,
    {
        proof {
            lemma_views_unfold(*old(node));
        }
        match node.style.display {
            Display::Hidden => {
                node.rect.width = Fixed::zero();
                node.rect.height = Fixed::zero();
                proof {
                    lemma_styles_by_parts(*node, *old(node));
                    lemma_measure_unfold(old(node).styles(), *ctx);
                }
                if !self_only {
                    Self::clear_children(node);
                    proof {
                        lemma_size_tree_unfold(old(node).styles(), *ctx);
                        lemma_sizes_by_parts(*node, size_tree(old(node).styles(), *ctx));
                    }
                }
            },
            Display::Block => Self::layout_block_size(node, self_only, ctx),
            Display::Flex { flex_direction } => {
                let axis = Axis::of(flex_direction);
                Self::layout_flex_size(node, axis, self_only, ctx);
            },
        }
    }

    /// Places the node at `(x, y)` and everything below it from there.
    pub(crate) fn layout_position(node: &mut LayoutNode, x: Fixed, y: Fixed, ctx: &LayoutContext)
        ensures
            final(node).styles() == old(node).styles(),
            final(node).rects() == place(old(node).styles(), old(node).sizes(), x, y, *ctx),
        decreases old(node).styles(), 3nat,
    {
        let ghost t = node.styles();
        let ghost s = node.sizes();
        proof {
            lemma_views_unfold(*old(node));
        }
        node.rect.x = x;
        node.rect.y = y;
        proof {
            lemma_styles_by_parts(*node, *old(node));
            lemma_sizes_by_parts(*node, s);
        }
        match node.style.display {
            Display::Hidden => {
                Self::clear_children(node);
                proof {
                    lemma_place_unfold(t, s, x, y, *ctx);
                    lemma_rects_by_parts(*node, place(t, s, x, y, *ctx));
                }
            },
            Display::Block => {
                Self::layout_block_position(node, ctx);
            },
            Display::Flex { flex_direction } => {
                let axis = Axis::of(flex_direction);
                Self::layout_flex_position(node, axis, ctx);
            },
        }
    }

    /// Lays out the tree under `root` in a viewport of the given size.
    ///
    /// Every box is sized first, from the root down, with the viewport as
    /// the root's containing block and forced size. Then every box is
    /// placed, the root at the origin. The styles stay as they are; every
    /// box is written anew, so a second call changes nothing. A block that
    /// stands in a row without a basis or a width of its own starts from
    /// nothing when free space is shared out.
    pub fn layout(root: &mut LayoutNode, width: Fixed, height: Fixed)
        ensures
            final(root).styles() == old(root).styles(),
            final(root).rects() == layout_rects(old(root).styles(), width, height),
            final(root).rects().non_negative(),
    {
        Self::layout_with(root, width, height, RowBlockBasis::Zero);
    }

    /// Lays out the tree under `root` as `layout` does, with the choice of
    /// what a block in a row starts from.
    pub fn layout_with(root: &mut LayoutNode, width: Fixed, height: Fixed, basis: RowBlockBasis)
        ensures
            final(root).styles() == old(root).styles(),
            final(root).rects() == layout_rects_with(old(root).styles(), width, height, basis),
            final(root).rects().non_negative(),
    {
        let ctx = LayoutContext {
            containing_block_width: Some(width),
            containing_block_height: Some(height),
            viewport_width: width,
            viewport_height: height,
            forced_width: Some(width),
            forced_height: Some(height),
            row_block_basis: basis,
        };
        Self::layout_size(root, false, &ctx);
        Self::layout_position(root, Fixed::zero(), Fixed::zero(), &ctx);
        proof {
            lemma_layout_non_negative(old(root).styles(), width, height, basis);
        }
    }
}

} // verus!
