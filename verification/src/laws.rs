//! What holds of every layout.

use vstd::prelude::*;
use crate::axis::LayoutContext;
use crate::axis::RowBlockBasis;
use crate::fixed::Fixed;
use crate::model::child_context;
use crate::model::child_origin;
use crate::model::layout_rects_with;
use crate::model::lemma_measure_unfold;
use crate::model::lemma_place_unfold;
use crate::model::lemma_size_tree_unfold;
use crate::model::measure;
use crate::model::place;
use crate::model::position_child_context;
use crate::model::root_context_with;
use crate::model::size_tree;
use crate::node::LayoutNode;
use crate::node::RectTree;
use crate::node::StyleTree;
use crate::geometry::Rect;
use crate::style::Display;

verus! {

/// The relation that a layout sets up between the tree it is given and the
/// tree it leaves: the styles are kept, and the boxes are those that the
/// styles and the viewport call for.
pub open spec fn laid_out(before: LayoutNode, after: LayoutNode, width: Fixed, height: Fixed, basis: RowBlockBasis) -> bool {
    &&& after.styles() == before.styles()
    &&& after.rects() == layout_rects_with(before.styles(), width, height, basis)
}

/// A tree of empty boxes has no negative size.
pub proof fn lemma_zero_rects_non_negative(t: StyleTree)
    ensures
        t.zero_rects().non_negative(),
    decreases t,
{
    assert forall|i: int| 0 <= i < t.zero_rects().children.len() implies (#[trigger] t.zero_rects().children[i]).non_negative() by {
        lemma_zero_rects_non_negative(t.children[i]);
    }
}

/// No box measures a negative width or height.
pub proof fn lemma_measure_non_negative(t: StyleTree, ctx: LayoutContext)
    ensures
        measure(t, ctx).width@ >= 0,
        measure(t, ctx).height@ >= 0,
{
    lemma_measure_unfold(t, ctx);
}

/// Placing the sizes of a tree gives no box a negative width or height,
/// wherever the tree is placed.
pub proof fn lemma_place_non_negative(t: StyleTree, ctx: LayoutContext, x: Fixed, y: Fixed, position: LayoutContext)
    ensures
        place(t, size_tree(t, ctx), x, y, position).non_negative(),
    decreases t,
{
    let s = size_tree(t, ctx);
    let r = place(t, s, x, y, position);
    lemma_measure_non_negative(t, ctx);
    lemma_size_tree_unfold(t, ctx);
    lemma_place_unfold(t, s, x, y, position);
    assert forall|i: int| 0 <= i < r.children.len() implies (#[trigger] r.children[i]).non_negative() by {
        if t.style.display == Display::Hidden {
            lemma_zero_rects_non_negative(t.children[i]);
        } else {
            lemma_place_non_negative(
                t.children[i],
                child_context(t, ctx, i),
                child_origin(t, s, x, y, position, i).0,
                child_origin(t, s, x, y, position, i).1,
                position_child_context(t.style, s.size, position),
            );
        }
    }
}

/// After a layout no box of the tree has a negative width or height.
pub proof fn lemma_layout_non_negative(t: StyleTree, width: Fixed, height: Fixed, basis: RowBlockBasis)
    ensures
        layout_rects_with(t, width, height, basis).non_negative(),
{
    let ctx = root_context_with(width, height, basis);
    lemma_place_non_negative(t, ctx, Fixed::zero(), Fixed::zero(), ctx);
}

/// A layout is a function of the styles and the viewport alone: trees with
/// the same styles come out with the same boxes, whatever boxes they held
/// before.
pub proof fn lemma_layout_deterministic(
    a: LayoutNode,
    a_after: LayoutNode,
    b: LayoutNode,
    b_after: LayoutNode,
    width: Fixed,
    height: Fixed,
    basis: RowBlockBasis,
)
    requires
        a.styles() == b.styles(),
        laid_out(a, a_after, width, height, basis),
        laid_out(b, b_after, width, height, basis),
    ensures
        a_after.rects() == b_after.rects(),
        a_after.styles() == b_after.styles(),
{
}

/// Laying a tree out twice in a row gives what laying it out once gives.
pub proof fn lemma_layout_idempotent(
    before: LayoutNode,
    once: LayoutNode,
    twice: LayoutNode,
    width: Fixed,
    height: Fixed,
    basis: RowBlockBasis,
)
    requires
        laid_out(before, once, width, height, basis),
        laid_out(once, twice, width, height, basis),
    ensures
        twice.rects() == once.rects(),
        twice.styles() == once.styles(),
{
}

/// Whether a tree of boxes has the shape of a tree of styles: as many
/// children, in every place.
pub open spec fn same_shape(r: RectTree, t: StyleTree) -> bool
    decreases t,
{
    &&& r.children.len() == t.children.len()
    &&& forall|i: int| 0 <= i < t.children.len() ==> same_shape(#[trigger] r.children[i], t.children[i])
}

/// A tree of empty boxes has the shape of the styles it was made for, and
/// its sizes are the empty sizes.
pub proof fn lemma_zero_rects(t: StyleTree)
    ensures
        same_shape(t.zero_rects(), t),
        t.zero_rects().sizes() == t.zero_sizes(),
    decreases t,
{
    let r = t.zero_rects();
    assert forall|i: int| 0 <= i < t.children.len() implies same_shape(#[trigger] r.children[i], t.children[i]) by {
        lemma_zero_rects(t.children[i]);
    }
    assert forall|i: int| 0 <= i < t.children.len() implies (#[trigger] r.sizes().children[i]) == t.zero_sizes().children[i] by {
        lemma_zero_rects(t.children[i]);
    }
    assert(r.sizes().children =~= t.zero_sizes().children);
}

/// Placing a tree keeps its shape and the sizes it was given.
pub proof fn lemma_place_keeps(t: StyleTree, ctx: LayoutContext, x: Fixed, y: Fixed, position: LayoutContext)
    ensures
        same_shape(place(t, size_tree(t, ctx), x, y, position), t),
        place(t, size_tree(t, ctx), x, y, position).sizes() == size_tree(t, ctx),
    decreases t,
{
    let s = size_tree(t, ctx);
    let r = place(t, s, x, y, position);
    lemma_size_tree_unfold(t, ctx);
    lemma_place_unfold(t, s, x, y, position);
    assert forall|i: int| 0 <= i < t.children.len() implies same_shape(#[trigger] r.children[i], t.children[i])
        && r.children[i].sizes() == s.children[i] by {
        if t.style.display == Display::Hidden {
            lemma_zero_rects(t.children[i]);
        } else {
            lemma_place_keeps(
                t.children[i],
                child_context(t, ctx, i),
                child_origin(t, s, x, y, position, i).0,
                child_origin(t, s, x, y, position, i).1,
                position_child_context(t.style, s.size, position),
            );
        }
    }
    assert(r.sizes().children =~= s.children);
}

/// A layout keeps the shape of the tree; it puts the root at the origin with
/// the size that the root measures against the viewport, and gives every
/// box below it the size that the size pass settled.
pub proof fn lemma_layout_shape_and_sizes(t: StyleTree, width: Fixed, height: Fixed, basis: RowBlockBasis)
    ensures
        same_shape(layout_rects_with(t, width, height, basis), t),
        layout_rects_with(t, width, height, basis).rect == Rect::at(
            Fixed::zero(),
            Fixed::zero(),
            measure(t, root_context_with(width, height, basis)),
        ),
        layout_rects_with(t, width, height, basis).sizes() == size_tree(t, root_context_with(width, height, basis)),
{
    let ctx = root_context_with(width, height, basis);
    lemma_place_keeps(t, ctx, Fixed::zero(), Fixed::zero(), ctx);
    lemma_size_tree_unfold(t, ctx);
    lemma_place_unfold(t, size_tree(t, ctx), Fixed::zero(), Fixed::zero(), ctx);
}

/// A hidden box is empty, and so is everything below it.
pub proof fn lemma_hidden_is_empty(t: StyleTree, ctx: LayoutContext, x: Fixed, y: Fixed, position: LayoutContext)
    requires
        t.style.display == Display::Hidden,
    ensures
        measure(t, ctx) == crate::geometry::Size::spec_zero(),
        place(t, size_tree(t, ctx), x, y, position).rect == (Rect {
            x,
            y,
            width: Fixed::zero(),
            height: Fixed::zero(),
        }),
        forall|i: int|
            0 <= i < t.children.len() ==> (#[trigger] place(t, size_tree(t, ctx), x, y, position).children[i])
                == t.children[i].zero_rects(),
{
    lemma_measure_unfold(t, ctx);
    lemma_size_tree_unfold(t, ctx);
    lemma_place_unfold(t, size_tree(t, ctx), x, y, position);
}

} // verus!
