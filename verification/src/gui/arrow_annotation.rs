//! Arrows drawn on the board to annotate moves and plans. An arrow carries a
//! drawing style chosen by the caller (its colour and line width), which
//! the annotation logic passes through untouched.

use vstd::prelude::*;
use crate::xiangqi::Square;

verus! {

/// An arrow annotation.
#[derive(Debug, Clone, Copy)]
pub struct Arrow<S> {
    /// Starting square.
    pub from: Square,
    /// Ending square.
    pub to: Square,
    /// How the arrow is drawn.
    pub style: S,
    /// Whether the arrow is kept when temporary arrows are cleared.
    pub persistent: bool,
}

impl<S: Copy> Arrow<S> {
    /// A temporary arrow.
    pub fn new(from: Square, to: Square, style: S) -> (a: Arrow<S>)
        ensures
            a == (Arrow { from, to, style, persistent: false }),
    {
        Arrow { from, to, style, persistent: false }
    }

    /// A persistent arrow.
    pub fn persistent(from: Square, to: Square, style: S) -> (a: Arrow<S>)
        ensures
            a == (Arrow { from, to, style, persistent: true }),
    {
        Arrow { from, to, style, persistent: true }
    }
}

/// The arrows on the board and the drawing state.
pub struct ArrowAnnotations<S> {
    /// Arrows, oldest first.
    pub arrows: Vec<Arrow<S>>,
    /// Whether drawing mode is on.
    pub drawing_mode: bool,
    /// Start square of the arrow being drawn.
    pub drawing_start: Option<Square>,
    /// Style of newly drawn arrows.
    pub default_style: S,
}

/// Whether two squares are the same point.
fn same_square(a: Square, b: Square) -> (r: bool)
    ensures
        r == (a == b),
{
    a.file == b.file && a.rank == b.rank
}

impl<S: Copy> ArrowAnnotations<S> {
    /// Sets the style of new arrows.
    pub fn set_default_color(&mut self, style: S)
        ensures
            final(self).default_style == style,
            final(self).arrows@ == old(self).arrows@,
            final(self).drawing_mode == old(self).drawing_mode,
            final(self).drawing_start == old(self).drawing_start,
    {
        self.default_style = style;
    }

    /// No arrows, drawing off.
    pub fn new(default_style: S) -> (a: ArrowAnnotations<S>)
        ensures
            a.arrows@.len() == 0,
            !a.drawing_mode,
            a.drawing_start is None,
            a.default_style == default_style,
    {
        ArrowAnnotations { arrows: Vec::new(), drawing_mode: false, drawing_start: None, default_style }
    }

    /// Adds an arrow.
    pub fn add_arrow(&mut self, arrow: Arrow<S>)
        ensures
            final(self).arrows@ == old(self).arrows@.push(arrow),
            final(self).drawing_mode == old(self).drawing_mode,
            final(self).drawing_start == old(self).drawing_start,
            final(self).default_style == old(self).default_style,
    {
        self.arrows.push(arrow);
    }

    /// Removes the arrow at `index`, if there is one.
    pub fn remove_arrow(&mut self, index: usize) -> (r: Option<Arrow<S>>)
        ensures
            index < old(self).arrows@.len() ==> r == Some(old(self).arrows@[index as int])
                && final(self).arrows@ == old(self).arrows@.remove(index as int),
            index >= old(self).arrows@.len() ==> r is None && final(self).arrows@ == old(self).arrows@,
            final(self).drawing_mode == old(self).drawing_mode,
            final(self).drawing_start == old(self).drawing_start,
            final(self).default_style == old(self).default_style,
    {
        if index < self.arrows.len() {
            Some(self.arrows.remove(index))
        } else {
            None
        }
    }

    /// Removes every arrow.
    pub fn clear_all(&mut self)
        ensures
            final(self).arrows@.len() == 0,
            final(self).drawing_mode == old(self).drawing_mode,
            final(self).drawing_start == old(self).drawing_start,
            final(self).default_style == old(self).default_style,
    {
        self.arrows.clear();
    }

    /// Keeps the arrows `pred` selects, in order; `mode` says which test
    /// `pred` is.
    fn retain_where(&mut self, Ghost(pred): Ghost<spec_fn(Arrow<S>) -> bool>, mode: u8, sq: Square)
        requires
            mode == 0 ==> pred == (|a: Arrow<S>| a.persistent),
            mode == 1 ==> pred == (|a: Arrow<S>| a.from != sq),
            mode == 2 ==> pred == (|a: Arrow<S>| a.to != sq),
            mode <= 2,
        ensures
            final(self).arrows@ == old(self).arrows@.filter(pred),
            final(self).drawing_mode == old(self).drawing_mode,
            final(self).drawing_start == old(self).drawing_start,
            final(self).default_style == old(self).default_style,
    {
        let mut kept: Vec<Arrow<S>> = Vec::new();
        let mut i: usize = 0;
        while i < self.arrows.len()
            invariant
                i <= self.arrows@.len(),
                self.arrows@ == old(self).arrows@,
                mode == 0 ==> pred == (|a: Arrow<S>| a.persistent),
                mode == 1 ==> pred == (|a: Arrow<S>| a.from != sq),
                mode == 2 ==> pred == (|a: Arrow<S>| a.to != sq),
                mode <= 2,
                kept@ == self.arrows@.take(i as int).filter(pred),
            decreases self.arrows@.len() - i,
        {
            let a = self.arrows[i];
            let keep = if mode == 0 {
                a.persistent
            } else if mode == 1 {
                !same_square(a.from, sq)
            } else {
                !same_square(a.to, sq)
            };
            proof {
                assert(self.arrows@.take(i + 1).drop_last() =~= self.arrows@.take(i as int));
                assert(self.arrows@.take(i + 1).last() == a);
                reveal(Seq::filter);
                assert(keep == pred(a));
            }
            if keep {
                kept.push(a);
            }
            i = i + 1;
        }
        assert(self.arrows@.take(self.arrows@.len() as int) =~= self.arrows@);
        self.arrows = kept;
    }

    /// Removes the temporary arrows.
    pub fn clear_temporary(&mut self)
        ensures
            final(self).arrows@ == old(self).arrows@.filter(|a: Arrow<S>| a.persistent),
            final(self).drawing_mode == old(self).drawing_mode,
            final(self).drawing_start == old(self).drawing_start,
            final(self).default_style == old(self).default_style,
    {
        let sq = Square { file: 0, rank: 0 };
        self.retain_where(Ghost(|a: Arrow<S>| a.persistent), 0, sq);
    }

    /// Removes the arrows starting on `from`.
    pub fn remove_arrows_from(&mut self, from: Square)
        ensures
            final(self).arrows@ == old(self).arrows@.filter(|a: Arrow<S>| a.from != from),
            final(self).drawing_mode == old(self).drawing_mode,
            final(self).drawing_start == old(self).drawing_start,
            final(self).default_style == old(self).default_style,
    {
        self.retain_where(Ghost(|a: Arrow<S>| a.from != from), 1, from);
    }

    /// Removes the arrows ending on `to`.
    pub fn remove_arrows_to(&mut self, to: Square)
        ensures
            final(self).arrows@ == old(self).arrows@.filter(|a: Arrow<S>| a.to != to),
            final(self).drawing_mode == old(self).drawing_mode,
            final(self).drawing_start == old(self).drawing_start,
            final(self).default_style == old(self).default_style,
    {
        self.retain_where(Ghost(|a: Arrow<S>| a.to != to), 2, to);
    }

    /// Number of arrows.
    pub fn count(&self) -> (n: usize)
        ensures
            n == self.arrows@.len(),
    {
        self.arrows.len()
    }

    /// Whether there are no arrows.
    pub fn is_empty(&self) -> (b: bool)
        ensures
            b == (self.arrows@.len() == 0),
    {
        self.arrows.len() == 0
    }

    /// Turns drawing mode on.
    pub fn enable_drawing(&mut self)
        ensures
            final(self).drawing_mode,
            final(self).arrows@ == old(self).arrows@,
            final(self).drawing_start == old(self).drawing_start,
            final(self).default_style == old(self).default_style,
    {
        self.drawing_mode = true;
    }

    /// Turns drawing mode off, dropping an arrow in progress.
    pub fn disable_drawing(&mut self)
        ensures
            !final(self).drawing_mode,
            final(self).drawing_start is None,
            final(self).arrows@ == old(self).arrows@,
            final(self).default_style == old(self).default_style,
    {
        self.drawing_mode = false;
        self.drawing_start = None;
    }

    /// Toggles drawing mode.
    pub fn toggle_drawing(&mut self)
        ensures
            final(self).drawing_mode == !old(self).drawing_mode,
            final(self).drawing_start == if old(self).drawing_mode {
                None
            } else {
                old(self).drawing_start
            },
            final(self).arrows@ == old(self).arrows@,
            final(self).default_style == old(self).default_style,
    {
        if self.drawing_mode {
            self.disable_drawing();
        } else {
            self.enable_drawing();
        }
    }

    /// Starts an arrow on `from` when drawing mode is on.
    pub fn start_drawing(&mut self, from: Square)
        ensures
            final(self).drawing_start == if old(self).drawing_mode {
                Some(from)
            } else {
                old(self).drawing_start
            },
            final(self).drawing_mode == old(self).drawing_mode,
            final(self).arrows@ == old(self).arrows@,
            final(self).default_style == old(self).default_style,
    {
        if self.drawing_mode {
            self.drawing_start = Some(from);
        }
    }

    /// Ends the arrow in progress on `to`: adds and returns it unless it
    /// would start and end on the same square. The start is cleared either
    /// way.
    pub fn finish_drawing(&mut self, to: Square) -> (r: Option<Arrow<S>>)
        ensures
            final(self).drawing_start is None,
            match old(self).drawing_start {
                Some(from) => if from != to {
                    let a = Arrow { from, to, style: old(self).default_style, persistent: false };
                    r == Some(a) && final(self).arrows@ == old(self).arrows@.push(a)
                } else {
                    r is None && final(self).arrows@ == old(self).arrows@
                },
                None => r is None && final(self).arrows@ == old(self).arrows@,
            },
            final(self).drawing_mode == old(self).drawing_mode,
            final(self).default_style == old(self).default_style,
    {
        if let Some(from) = self.drawing_start {
            if !same_square(from, to) {
                let arrow = Arrow::new(from, to, self.default_style);
                self.add_arrow(arrow);
                self.drawing_start = None;
                return Some(arrow);
            }
        }
        self.drawing_start = None;
        None
    }

    /// Drops the arrow in progress.
    pub fn cancel_drawing(&mut self)
        ensures
            final(self).drawing_start is None,
            final(self).drawing_mode == old(self).drawing_mode,
            final(self).arrows@ == old(self).arrows@,
            final(self).default_style == old(self).default_style,
    {
        self.drawing_start = None;
    }
}

} // verus!
