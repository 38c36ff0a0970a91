//! A fixed-size drawing surface.  Rendering a view-tree fills a
//! width-by-height grid of characters; cells no line reaches are blank.
//! Flushing the finished grid to the terminal is the caller's business:
//! the canvas itself performs no output.

use vstd::prelude::*;

use crate::view::{lines_of, RootViewNode};

verus! {

/// A character that fills every cell no rendered line reaches.
pub const BLANK: char = ' ';

/// The grid a list of lines paints on a `width`-by-`height` surface: each
/// cell holds the matching character of the matching line, or a blank
/// where no line reaches.
pub open spec fn frame_of(lines: Seq<Seq<char>>, width: nat, height: nat) -> Seq<Seq<char>> {
    Seq::new(
        height,
        |r: int|
            Seq::new(
                width,
                |c: int|
                    if r < lines.len() && c < lines[r].len() {
                        lines[r][c]
                    } else {
                        BLANK
                    },
            ),
    )
}

/// The drawing surface: a grid of `height` rows of `width` characters.
pub struct Canvas {
    pub width: usize,
    pub height: usize,
    pub rows: Vec<Vec<char>>,
}

impl Canvas {
    /// The grid has exactly `height` rows of exactly `width` cells.
    pub open spec fn wf(self) -> bool {
        &&& self.frame().len() == self.height
        &&& forall|r: int| 0 <= r < self.frame().len() ==> (#[trigger] self.frame()[r]).len()
            == self.width
    }

    /// The grid as a sequence of rows of characters.
    pub open spec fn frame(self) -> Seq<Seq<char>> {
        self.rows.deep_view()
    }

    /// A blank canvas of the given dimensions.
    #[verifier::loop_isolation(false)]
    pub fn new(width: usize, height: usize) -> (canvas: Canvas)
        ensures
            canvas.width == width,
            canvas.height == height,
            canvas.wf(),
            canvas.frame() == frame_of(Seq::empty(), width as nat, height as nat),
    {
        let mut rows: Vec<Vec<char>> = Vec::new();
        let mut r: usize = 0;
        while r < height
            invariant
                r <= height,
                rows.deep_view() == frame_of(Seq::empty(), width as nat, height as nat).subrange(
                    0,
                    r as int,
                ),
            decreases height - r,
        {
            let mut row: Vec<char> = Vec::new();
            let mut c: usize = 0;
            while c < width
                invariant
                    c <= width,
                    row@.len() == c,
                    forall|k: int| 0 <= k < c ==> row@[k] == BLANK,
                decreases width - c,
            {
                row.push(BLANK);
                c = c + 1;
            }
            let ghost prev = rows.deep_view();
            rows.push(row);
            proof {
                assert(rows.deep_view() =~~= prev.push(row@));
                assert(frame_of(Seq::empty(), width as nat, height as nat)[r as int] =~= row@);
                assert(rows.deep_view() =~= frame_of(
                    Seq::empty(),
                    width as nat,
                    height as nat,
                ).subrange(0, (r + 1) as int));
            }
            r = r + 1;
        }
        proof {
            let target = frame_of(Seq::empty(), width as nat, height as nat);
            assert(target.subrange(0, height as int) =~= target);
        }
        Canvas { width, height, rows }
    }

    /// Realizes a view-tree on the surface: the tree's lines fill the grid
    /// top to bottom, clipped to the surface, blanks everywhere else.
    #[verifier::loop_isolation(false)]
    pub fn render_view_node_tree(&mut self, root: &RootViewNode)
        requires
            old(self).wf(),
        ensures
            final(self).wf(),
            final(self).width == old(self).width,
            final(self).height == old(self).height,
            final(self).frame() == frame_of(
                lines_of(root.0),
                old(self).width as nat,
                old(self).height as nat,
            ),
    {
        let mut lines: Vec<String> = Vec::new();
        root.0.push_lines(&mut lines);
        proof {
            assert(lines.deep_view() =~= lines_of(root.0));
        }
        let ghost target = frame_of(lines_of(root.0), self.width as nat, self.height as nat);
        let mut rows: Vec<Vec<char>> = Vec::new();
        let mut r: usize = 0;
        while r < self.height
            invariant
                r <= self.height,
                rows.deep_view() == target.subrange(0, r as int),
            decreases self.height - r,
        {
            let mut row: Vec<char> = Vec::new();
            if r < lines.len() {
                let line: &String = &lines[r];
                let line_len = line.as_str().unicode_len();
                let mut c: usize = 0;
                while c < self.width
                    invariant
                        c <= self.width,
                        row@.len() == c,
                        forall|k: int| 0 <= k < c ==> row@[k] == target[r as int][k],
                    decreases self.width - c,
                {
                    if c < line_len {
                        row.push(line.as_str().get_char(c));
                    } else {
                        row.push(BLANK);
                    }
                    c = c + 1;
                }
            } else {
                let mut c: usize = 0;
                while c < self.width
                    invariant
                        c <= self.width,
                        row@.len() == c,
                        forall|k: int| 0 <= k < c ==> row@[k] == target[r as int][k],
                    decreases self.width - c,
                {
                    row.push(BLANK);
                    c = c + 1;
                }
            }
            let ghost prev = rows.deep_view();
            rows.push(row);
            proof {
                assert(target[r as int] =~= row@);
                assert(rows.deep_view() =~~= prev.push(row@));
                assert(rows.deep_view() =~= target.subrange(0, (r + 1) as int));
            }
            r = r + 1;
        }
        proof {
            assert(target.subrange(0, self.height as int) =~= target);
        }
        self.rows = rows;
    }
}

} // verus!
