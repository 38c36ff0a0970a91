//! View trees: immutable descriptions of what should appear on screen,
//! recomputed from model state on every render and never mutated in place.
//! The meaning of a tree is the sequence of text lines it describes, top to
//! bottom, given by [`lines_of`].

use vstd::prelude::*;

verus! {

/// A node of a view-tree.
pub enum ViewNode {
    /// One line of text.
    Text(String),
    /// Vertical composition: the lines of the children, in order.
    Column(Vec<ViewNode>),
}

/// Wraps the active page's view-tree to give the render pipeline a single
/// entry point, independent of which page is active.
pub struct RootViewNode(pub ViewNode);

/// The lines a view-tree describes, top to bottom.
pub open spec fn lines_of(n: ViewNode) -> Seq<Seq<char>>
    decreases n,
{
    match n {
        ViewNode::Text(s) => seq![s@],
        ViewNode::Column(children) => lines_of_seq(children@),
    }
}

/// The lines of a row of sibling trees, in order.
pub open spec fn lines_of_seq(s: Seq<ViewNode>) -> Seq<Seq<char>>
    decreases s,
{
    if s.len() == 0 {
        Seq::empty()
    } else {
        lines_of_seq(s.drop_last()) + lines_of(s.last())
    }
}

impl ViewNode {
    /// Appends this tree's lines, in order, to `out`.
    #[verifier::loop_isolation(false)]
    pub fn push_lines(&self, out: &mut Vec<String>)
        ensures
            final(out).deep_view() == old(out).deep_view() + lines_of(*self),
        decreases *self,
    {
        match self {
            ViewNode::Text(s) => {
                out.push(s.clone());
                proof {
                    assert(out.deep_view() =~= old(out).deep_view() + lines_of(*self));
                }
            },
            ViewNode::Column(children) => {
                let ghost base: Seq<Seq<char>> = out.deep_view();
                let mut i: usize = 0;
                while i < children.len()
                    invariant
                        i <= children.len(),
                        out.deep_view() == base + lines_of_seq(children@.subrange(0, i as int)),
                    decreases children.len() - i,
                {
                    proof {
                        assert(decreases_to!(*self => (*self)->Column_0));
                        assert((*self)->Column_0 == *children);
                        assert(decreases_to!(*children => children@));
                        assert(decreases_to!(children@ => children@[i as int]));
                        assert(decreases_to!(*self => children@[i as int]));
                    }
                    children[i].push_lines(out);
                    proof {
                        let done = children@.subrange(0, (i + 1) as int);
                        assert(done.drop_last() =~= children@.subrange(0, i as int));
                        assert(done.last() == children@[i as int]);
                    }
                    i = i + 1;
                }
                proof {
                    assert(children@.subrange(0, children@.len() as int) =~= children@);
                }
            },
        }
    }
}

} // verus!
