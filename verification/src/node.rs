//! The tree that a layout works on, and its mathematical views.

use vstd::prelude::*;
use crate::geometry::Rect;
use crate::geometry::Size;
use crate::style::Style;

verus! {

/// A box in the tree: its style, the geometry computed for it, and its
/// children in order.
#[derive(Debug)]
pub struct LayoutNode {
    pub style: Style,
    pub rect: Rect,
    pub children: Vec<LayoutNode>,
}

/// The input of a layout: the styles of a tree, without its geometry.
pub struct StyleTree {
    pub style: Style,
    pub children: Seq<StyleTree>,
}

/// The sizes of the boxes of a tree.
pub struct SizeTree {
    pub size: Size,
    pub children: Seq<SizeTree>,
}

/// The output of a layout: the geometry of a tree, without its styles.
pub struct RectTree {
    pub rect: Rect,
    pub children: Seq<RectTree>,
}

impl StyleTree {
    /// A tree of the same shape in which every box is empty.
    pub open spec fn zero_sizes(self) -> SizeTree
        decreases self,
    {
        SizeTree {
            size: Size::spec_zero(),
            children: Seq::new(
                self.children.len(),
                |i: int|
                    if 0 <= i < self.children.len() {
                        self.children[i].zero_sizes()
                    } else {
                        arbitrary()
                    },
            ),
        }
    }

    /// A tree of the same shape in which every box is empty and lies at the origin.
    pub open spec fn zero_rects(self) -> RectTree
        decreases self,
    {
        RectTree {
            rect: Rect::spec_zero(),
            children: Seq::new(
                self.children.len(),
                |i: int|
                    if 0 <= i < self.children.len() {
                        self.children[i].zero_rects()
                    } else {
                        arbitrary()
                    },
            ),
        }
    }
}

impl RectTree {
    /// Whether no box of the tree has a negative width or height.
    pub open spec fn non_negative(self) -> bool
        decreases self,
    {
        &&& self.rect.width@ >= 0
        &&& self.rect.height@ >= 0
        &&& forall|i: int| 0 <= i < self.children.len() ==> (#[trigger] self.children[i]).non_negative()
    }

    /// The sizes of the boxes, without their positions.
    pub open spec fn sizes(self) -> SizeTree
        decreases self,
    {
        SizeTree {
            size: self.rect.size(),
            children: Seq::new(
                self.children.len(),
                |i: int|
                    if 0 <= i < self.children.len() {
                        self.children[i].sizes()
                    } else {
                        arbitrary()
                    },
            ),
        }
    }
}

impl LayoutNode {
    /// The styles of this node and of everything below it.
    #[verifier::opaque]
    pub open spec fn styles(&self) -> StyleTree
        decreases self,
    {
        StyleTree {
            style: self.style,
            children: Seq::new(
                self.children@.len(),
                |i: int|
                    if 0 <= i < self.children@.len() {
                        self.children@[i].styles()
                    } else {
                        arbitrary()
                    },
            ),
        }
    }

    /// The geometry of this node and of everything below it.
    #[verifier::opaque]
    pub open spec fn rects(&self) -> RectTree
        decreases self,
    {
        RectTree {
            rect: self.rect,
            children: Seq::new(
                self.children@.len(),
                |i: int|
                    if 0 <= i < self.children@.len() {
                        self.children@[i].rects()
                    } else {
                        arbitrary()
                    },
            ),
        }
    }

    /// The sizes of this node and of everything below it.
    #[verifier::opaque]
    pub open spec fn sizes(&self) -> SizeTree
        decreases self,
    {
        SizeTree {
            size: self.rect.size(),
            children: Seq::new(
                self.children@.len(),
                |i: int|
                    if 0 <= i < self.children@.len() {
                        self.children@[i].sizes()
                    } else {
                        arbitrary()
                    },
            ),
        }
    }

    /// A leaf with the given style and an empty box at the origin.
    pub fn new(style: Style) -> (r: LayoutNode)
        ensures
            r.style == style,
            r.rect == Rect::spec_zero(),
            r.children@ == Seq::<LayoutNode>::empty(),
            r.styles() == (StyleTree { style, children: Seq::empty() }),
            r.rects() == (RectTree { rect: Rect::spec_zero(), children: Seq::empty() }),
    {
        let r = LayoutNode { style, rect: Rect::default(), children: Vec::new() };
        proof {
            reveal(LayoutNode::styles);
            reveal(LayoutNode::rects);
            assert(r.styles().children =~= Seq::<StyleTree>::empty());
            assert(r.rects().children =~= Seq::<RectTree>::empty());
        }
        r
    }

    /// A node with the given style and children and an empty box at the
    /// origin. The children keep the boxes they bring.
    pub fn with_children(style: Style, children: Vec<LayoutNode>) -> (r: LayoutNode)
        ensures
            r.style == style,
            r.rect == Rect::spec_zero(),
            r.children == children,
            r.styles().style == style,
            r.styles().children.len() == children@.len(),
            forall|i: int| 0 <= i < children@.len() ==> (#[trigger] r.styles().children[i]) == children@[i].styles(),
    {
        let r = LayoutNode { style, rect: Rect::default(), children };
        proof {
            reveal(LayoutNode::styles);
        }
        r
    }
}

/// The views of a node, one level down.
pub proof fn lemma_views_unfold(node: LayoutNode)
    ensures
        node.styles().style == node.style,
        node.styles().children.len() == node.children@.len(),
        forall|i: int| 0 <= i < node.children@.len() ==> (#[trigger] node.styles().children[i]) == node.children@[i].styles(),
        node.sizes().size == node.rect.size(),
        node.sizes().children.len() == node.children@.len(),
        forall|i: int| 0 <= i < node.children@.len() ==> (#[trigger] node.sizes().children[i]) == node.children@[i].sizes(),
        node.rects().rect == node.rect,
        node.rects().children.len() == node.children@.len(),
        forall|i: int| 0 <= i < node.children@.len() ==> (#[trigger] node.rects().children[i]) == node.children@[i].rects(),
{
    reveal(LayoutNode::styles);
    reveal(LayoutNode::sizes);
    reveal(LayoutNode::rects);
}

/// Nodes with the same style and the same children have the same styles.
pub proof fn lemma_styles_by_parts(a: LayoutNode, b: LayoutNode)
    requires
        a.style == b.style,
        a.children@.len() == b.children@.len(),
        forall|i: int| 0 <= i < a.children@.len() ==> (#[trigger] a.children@[i]).styles() == b.children@[i].styles(),
    ensures
        a.styles() == b.styles(),
{
    lemma_views_unfold(a);
    lemma_views_unfold(b);
    assert(a.styles().children =~= b.styles().children);
}

/// A tree of sizes is its root size and the trees of its children.
pub proof fn lemma_sizes_by_parts(node: LayoutNode, s: SizeTree)
    requires
        node.rect.size() == s.size,
        node.children@.len() == s.children.len(),
        forall|i: int| 0 <= i < node.children@.len() ==> (#[trigger] node.children@[i]).sizes() == s.children[i],
    ensures
        node.sizes() == s,
{
    lemma_views_unfold(node);
    assert(node.sizes().children =~= s.children);
}

/// A tree of boxes is its root box and the trees of its children.
pub proof fn lemma_rects_by_parts(node: LayoutNode, r: RectTree)
    requires
        node.rect == r.rect,
        node.children@.len() == r.children.len(),
        forall|i: int| 0 <= i < node.children@.len() ==> (#[trigger] node.children@[i]).rects() == r.children[i],
    ensures
        node.rects() == r,
{
    lemma_views_unfold(node);
    assert(node.rects().children =~= r.children);
}

} // verus!
